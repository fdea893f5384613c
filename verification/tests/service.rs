use valentine_backend::quotes::QuoteBank;
use valentine_backend::response::health;
use valentine_backend::response::health_json;
use valentine_backend::response::valentine;
use valentine_backend::response::valentine_at;
use valentine_backend::response::valentine_json;

const EXPECTED_QUOTES: [&str; 10] = [
    "You are the reason I believe in love.",
    "Every love story is beautiful, but ours is my favorite.",
    "In all the world, there is no heart for me like yours.",
    "I love you more than yesterday, less than tomorrow.",
    "You had me at hello.",
    "To love and be loved is to feel the sun from both sides.",
    "My heart is, and always will be, yours.",
    "I wish I could turn back the clock. I'd find you sooner and love you longer.",
    "You are my today and all of my tomorrows.",
    "I fell in love the way you fall asleep: slowly, and then all at once.",
];

#[test]
fn health_record_is_fixed() {
    let h = health();
    assert_eq!(h.status, "ok");
    assert_eq!(h.service, "valentine-backend");
    let again = health();
    assert_eq!(again.status, h.status);
    assert_eq!(again.service, h.service);
}

#[test]
fn health_body_is_exact() {
    let body = health_json(&health());
    assert_eq!(body, "{\"status\":\"ok\",\"service\":\"valentine-backend\"}");
}

#[test]
fn quote_bank_holds_the_ten_quotes_in_order() {
    let bank = QuoteBank::new();
    assert_eq!(bank.len(), 10);
    for (i, expected) in EXPECTED_QUOTES.iter().enumerate() {
        assert_eq!(bank.pick_at(i), *expected);
    }
}

#[test]
fn valentine_message_is_always_a_bank_quote() {
    let bank = QuoteBank::new();
    for _ in 0..200 {
        let m = valentine(&bank);
        assert!(EXPECTED_QUOTES.iter().any(|q| *q == m.message));
        assert_eq!(m.from, "Your Valentine");
    }
}

#[test]
fn valentine_at_selects_by_index() {
    let bank = QuoteBank::new();
    for (i, expected) in EXPECTED_QUOTES.iter().enumerate() {
        let m = valentine_at(&bank, i);
        assert_eq!(m.message, *expected);
        assert_eq!(m.from, "Your Valentine");
    }
}

#[test]
fn out_of_range_index_falls_back() {
    let bank = QuoteBank::new();
    assert_eq!(bank.pick_at(10), "I love you!");
    assert_eq!(bank.pick_at(usize::MAX), "I love you!");
}

#[test]
fn empty_bank_falls_back() {
    let empty = QuoteBank::from_quotes(Vec::new());
    assert_eq!(empty.len(), 0);
    assert_eq!(empty.pick(), "I love you!");
    let m = valentine(&empty);
    assert_eq!(m.message, "I love you!");
    assert_eq!(m.from, "Your Valentine");
}

#[test]
fn substituted_quotes_are_served() {
    let bank = QuoteBank::from_quotes(vec!["Be mine.".to_string()]);
    assert_eq!(bank.len(), 1);
    assert_eq!(bank.pick(), "Be mine.");
}

#[test]
fn valentine_body_is_field_ordered() {
    let bank = QuoteBank::new();
    let m = valentine_at(&bank, 0);
    let body = valentine_json(&m);
    assert_eq!(
        body,
        "{\"message\":\"You are the reason I believe in love.\",\"from\":\"Your Valentine\"}"
    );
}

#[test]
fn selection_is_roughly_uniform() {
    let bank = QuoteBank::new();
    let mut counts = [0usize; 10];
    for _ in 0..10_000 {
        let quote = bank.pick();
        let i = EXPECTED_QUOTES
            .iter()
            .position(|q| *q == quote)
            .expect("drew a quote outside the bank");
        counts[i] += 1;
    }
    for count in counts.iter() {
        assert!(
            800 <= *count && *count <= 1200,
            "observed frequency {} outside tolerance",
            count
        );
    }
}
