use asm_emit::{check_symbol, digest, Dialect, Global, Label, SymbolError};
use std::collections::hash_map::DefaultHasher;
use std::hash::{Hash, Hasher};

fn std_hash(name: &str) -> u64 {
    let mut hasher = DefaultHasher::new();
    name.hash(&mut hasher);
    hasher.finish()
}

#[test]
fn plain_keeps_the_text() {
    assert_eq!(Label::plain("_start").as_str(), "_start");
    assert_eq!(Label::plain("").as_str(), "");
    assert_eq!(Label::plain("not a symbol").as_str(), "not a symbol");
}

#[test]
fn hashed_is_deterministic() {
    let first = Label::hashed("helloWorldStr");
    let second = Label::hashed("helloWorldStr");
    assert_eq!(first.as_str(), second.as_str());
    assert_eq!(first, second);
}

#[test]
fn hashed_is_deterministic_in_any_order() {
    let a1 = Label::hashed("a");
    let b1 = Label::hashed("b");
    let b2 = Label::hashed("b");
    let a2 = Label::hashed("a");
    assert_eq!(a1.as_str(), a2.as_str());
    assert_eq!(b1.as_str(), b2.as_str());
}

#[test]
fn hashed_tells_names_apart() {
    let names = ["", "a", "b", "ab", "ba", "helloWorldStr", "S_helloWorldStr", "message", "Message"];
    for (i, first) in names.iter().enumerate() {
        for second in names.iter().skip(i + 1) {
            assert_ne!(Label::hashed(first).as_str(), Label::hashed(second).as_str());
        }
    }
}

#[test]
fn hashed_has_marker_and_sixteen_digits() {
    for name in ["", "a", "helloWorldStr", "a name with spaces", "\u{e9}t\u{e9}"] {
        let symbol = Label::hashed(name);
        let text = symbol.as_str();
        assert_eq!(text.len(), 18);
        assert!(text.starts_with("L_"));
        assert!(text[2..].chars().all(|c| matches!(c, '0'..='9' | 'a'..='f')));
        assert!(check_symbol(text).is_ok());
    }
}

#[test]
fn hashed_exact_values() {
    assert_eq!(Label::hashed("helloWorldStr").as_str(), "L_5c911ff473bdf180");
    assert_eq!(Label::hashed("S_helloWorldStr").as_str(), "L_b6e839f855c0f9c2");
    assert_eq!(Label::hashed("").as_str(), "L_30406ea523c53def");
    assert_eq!(Label::hashed("a").as_str(), "L_719b50b9a4f0e9f3");
}

#[test]
fn digest_is_the_default_hash_of_the_name() {
    for name in ["", "a", "helloWorldStr", "S_helloWorldStr", "\u{e9}t\u{e9}", "a\0b"] {
        assert_eq!(digest(name), std_hash(name));
        assert_eq!(Label::hashed(name).as_str(), format!("L_{:016x}", std_hash(name)));
    }
}

#[test]
fn digest_is_not_its_argument() {
    assert_eq!(digest("a"), 0x719b50b9a4f0e9f3);
    assert_ne!(digest("a"), digest("b"));
}

#[test]
fn label_definition_ends_in_a_colon() {
    assert_eq!(Label::plain("_start").definition(), "_start:");
    assert_eq!(Label::hashed("a").definition(), "L_719b50b9a4f0e9f3:");
}

#[test]
fn validated_accepts_legal_names() {
    for name in ["_start", "main", "L_0", ".Lloop", "a.b_c$d", "Z9", "_"] {
        let symbol = Label::validated(name);
        assert_eq!(symbol, Ok(Label::plain(name)));
        assert_eq!(check_symbol(name), Ok(()));
    }
}

#[test]
fn validated_refuses_the_empty_name() {
    assert_eq!(Label::validated(""), Err(SymbolError::Empty));
    assert_eq!(check_symbol(""), Err(SymbolError::Empty));
}

#[test]
fn validated_refuses_a_bad_first_character() {
    assert_eq!(Label::validated("9lives"), Err(SymbolError::IllegalChar { index: 0 }));
    assert_eq!(Label::validated("$x"), Err(SymbolError::IllegalChar { index: 0 }));
    assert_eq!(Label::validated(" x"), Err(SymbolError::IllegalChar { index: 0 }));
}

#[test]
fn validated_reports_the_first_bad_character() {
    assert_eq!(Label::validated("a b c"), Err(SymbolError::IllegalChar { index: 1 }));
    assert_eq!(Label::validated("ab:"), Err(SymbolError::IllegalChar { index: 2 }));
    assert_eq!(Label::validated("tab\there"), Err(SymbolError::IllegalChar { index: 3 }));
}

#[test]
fn validated_counts_characters_not_bytes() {
    assert_eq!(Label::validated("\u{e9}"), Err(SymbolError::IllegalChar { index: 0 }));
    assert_eq!(Label::validated("a\u{e9}\u{e9}-"), Err(SymbolError::IllegalChar { index: 1 }));
    assert_eq!(check_symbol("ab\u{1F600}"), Err(SymbolError::IllegalChar { index: 2 }));
}

#[test]
fn symbol_error_messages() {
    assert_eq!(SymbolError::Empty.message(), "symbol name is empty");
    assert_eq!(
        SymbolError::IllegalChar { index: 0 }.message(),
        "illegal character in symbol name at index 0"
    );
    assert_eq!(
        SymbolError::IllegalChar { index: 12 }.message(),
        "illegal character in symbol name at index 12"
    );
}

#[test]
fn global_renders_in_both_dialects() {
    let global = Global::new("_start");
    assert_eq!(global.as_str(), "_start");
    assert_eq!(global.render(Dialect::Intel), "global _start");
    assert_eq!(global.render(Dialect::Att), ".global _start");
}
