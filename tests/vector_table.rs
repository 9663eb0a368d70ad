use avr_interrupt::symbol::{decimal_string, index_symbol};
use avr_interrupt::{Vector, VECTOR_COUNT};

fn all_vectors() -> Vec<Vector> {
    (0..VECTOR_COUNT).map(|i| Vector::from_index(i).unwrap()).collect()
}

#[test]
fn table_is_dense_and_ordered() {
    let all = all_vectors();
    assert_eq!(all.len(), 35);
    for (i, v) in all.iter().enumerate() {
        assert_eq!(v.index() as usize, i);
    }
    assert_eq!(Vector::from_index(35), None);
    assert_eq!(Vector::from_index(255), None);
}

#[test]
fn hardware_order_of_known_vectors() {
    assert_eq!(Vector::Reset.index(), 0);
    assert_eq!(Vector::Int0.index(), 1);
    assert_eq!(Vector::Pcint3.index(), 7);
    assert_eq!(Vector::Wdt.index(), 8);
    assert_eq!(Vector::Timer2Compb.index(), 18);
    assert_eq!(Vector::Timer0Ovf.index(), 10);
    assert_eq!(Vector::EepromReady.index(), 25);
    assert_eq!(Vector::Timer3Ovf.index(), 34);
}

#[test]
fn decimal_forms() {
    assert_eq!(decimal_string(0), "0");
    assert_eq!(decimal_string(7), "7");
    assert_eq!(decimal_string(10), "10");
    assert_eq!(decimal_string(18), "18");
    assert_eq!(decimal_string(255), "255");
}

#[test]
fn symbols_are_prefix_and_index() {
    assert_eq!(index_symbol(0), "__vector_0");
    assert_eq!(index_symbol(34), "__vector_34");
    for v in all_vectors() {
        assert_eq!(v.symbol(), format!("__vector_{}", v.index()));
    }
}

#[test]
fn symbols_are_distinct() {
    let symbols: Vec<String> = all_vectors().iter().map(|v| v.symbol()).collect();
    for i in 0..symbols.len() {
        for j in 0..symbols.len() {
            if i != j {
                assert_ne!(symbols[i], symbols[j]);
            }
        }
    }
}

#[test]
fn identifiers_are_distinct_and_found() {
    let all = all_vectors();
    for v in all.iter() {
        assert_eq!(Vector::from_identifier(v.identifier()), Some(*v));
    }
    for i in 0..all.len() {
        for j in 0..all.len() {
            if i != j {
                assert_ne!(all[i].identifier(), all[j].identifier());
            }
        }
    }
}

#[test]
fn unknown_identifier_is_absent() {
    assert_eq!(Vector::from_identifier("timer4_ovf"), None);
    assert_eq!(Vector::from_identifier(""), None);
    assert_eq!(Vector::from_identifier("TIMER0_OVF"), None);
}

#[test]
fn descriptor_of_timer0_overflow() {
    let d = Vector::Timer0Ovf.descriptor();
    assert_eq!(d.identifier, "timer0_ovf");
    assert_eq!(d.index, 10);
    assert_eq!(d.symbol, "__vector_10");
    assert_eq!(d.description, "Timer/Counter0 overflow");
}

#[test]
fn descriptor_of_reset() {
    let d = Vector::Reset.descriptor();
    assert_eq!(d.identifier, "reset");
    assert_eq!(d.index, 0);
    assert_eq!(d.symbol, "__vector_0");
    assert_eq!(d.description, "Microcontroller reset");
}
