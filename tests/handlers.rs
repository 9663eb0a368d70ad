use avr_interrupt::routine::GeneratedRoutine;
use proc_macro2::TokenStream;
use avr_interrupt::{
    emit_routine, transform, TransformError, Vector, VECTOR_COUNT,
    interrupt_handler_reset,
    interrupt_handler_int0,
    interrupt_handler_int1,
    interrupt_handler_int2,
    interrupt_handler_pcint0,
    interrupt_handler_pcint1,
    interrupt_handler_pcint2,
    interrupt_handler_pcint3,
    interrupt_handler_wdt,
    interrupt_handler_timer2_compa,
    interrupt_handler_timer2_compb,
    interrupt_handler_timer2_ovf,
    interrupt_handler_timer1_capt,
    interrupt_handler_timer1_compa,
    interrupt_handler_timer1_compb,
    interrupt_handler_timer1_ovf,
    interrupt_handler_timer0_compa,
    interrupt_handler_timer0_compb,
    interrupt_handler_timer0_ovf,
    interrupt_handler_spi_stc,
    interrupt_handler_usart0_rx,
    interrupt_handler_usart0_udre,
    interrupt_handler_usart0_tx,
    interrupt_handler_analog_comp,
    interrupt_handler_adc,
    interrupt_handler_eeprom_ready,
    interrupt_handler_twi,
    interrupt_handler_spm_ready,
    interrupt_handler_usart1_rx,
    interrupt_handler_usart1_udre,
    interrupt_handler_usart1_tx,
    interrupt_handler_timer3_capt,
    interrupt_handler_timer3_compa,
    interrupt_handler_timer3_compb,
    interrupt_handler_timer3_ovf,
};

fn toks(s: &str) -> TokenStream {
    s.parse().unwrap()
}

fn compact(s: &str) -> String {
    s.chars().filter(|c| !c.is_whitespace()).collect()
}

fn routine_of(r: Result<GeneratedRoutine, TransformError>) -> GeneratedRoutine {
    match r {
        Ok(g) => g,
        Err(TransformError::MalformedInput(m)) => panic!("unexpected error: {}", m),
    }
}

#[test]
fn timer0_overflow_scenario() {
    let g = routine_of(interrupt_handler_timer0_ovf(toks("fn timer0_ovf() { set_flag(); }")));
    assert_eq!(g.vector, Vector::Timer0Ovf);
    assert_eq!(g.symbol, "__vector_10");
    assert_eq!(g.body.len(), 1);
    assert_eq!(compact(&g.body[0]), "set_flag();");
    let src = g.source();
    assert!(src.starts_with("#[no_mangle]\npub unsafe extern \"avr-interrupt\" fn __vector_10() {"));
    assert_eq!(compact(&src), "#[no_mangle]pubunsafeextern\"avr-interrupt\"fn__vector_10(){set_flag();}");
}

#[test]
fn empty_handler_for_every_vector() {
    for i in 0..VECTOR_COUNT {
        let v = Vector::from_index(i).unwrap();
        let g = routine_of(transform(v, toks("fn handler() {}")));
        assert_eq!(g.symbol, format!("__vector_{}", i));
        assert!(g.body.is_empty());
        assert_eq!(
            g.source(),
            format!("#[no_mangle]\npub unsafe extern \"avr-interrupt\" fn __vector_{}() {{ }}", i)
        );
    }
}

#[test]
fn every_entry_point_binds_its_vector() {
    let entries: Vec<(fn(TokenStream) -> Result<GeneratedRoutine, TransformError>, Vector)> = vec![
        (interrupt_handler_reset, Vector::Reset),
        (interrupt_handler_int0, Vector::Int0),
        (interrupt_handler_int1, Vector::Int1),
        (interrupt_handler_int2, Vector::Int2),
        (interrupt_handler_pcint0, Vector::Pcint0),
        (interrupt_handler_pcint1, Vector::Pcint1),
        (interrupt_handler_pcint2, Vector::Pcint2),
        (interrupt_handler_pcint3, Vector::Pcint3),
        (interrupt_handler_wdt, Vector::Wdt),
        (interrupt_handler_timer2_compa, Vector::Timer2Compa),
        (interrupt_handler_timer2_compb, Vector::Timer2Compb),
        (interrupt_handler_timer2_ovf, Vector::Timer2Ovf),
        (interrupt_handler_timer1_capt, Vector::Timer1Capt),
        (interrupt_handler_timer1_compa, Vector::Timer1Compa),
        (interrupt_handler_timer1_compb, Vector::Timer1Compb),
        (interrupt_handler_timer1_ovf, Vector::Timer1Ovf),
        (interrupt_handler_timer0_compa, Vector::Timer0Compa),
        (interrupt_handler_timer0_compb, Vector::Timer0Compb),
        (interrupt_handler_timer0_ovf, Vector::Timer0Ovf),
        (interrupt_handler_spi_stc, Vector::SpiStc),
        (interrupt_handler_usart0_rx, Vector::Usart0Rx),
        (interrupt_handler_usart0_udre, Vector::Usart0Udre),
        (interrupt_handler_usart0_tx, Vector::Usart0Tx),
        (interrupt_handler_analog_comp, Vector::AnalogComp),
        (interrupt_handler_adc, Vector::Adc),
        (interrupt_handler_eeprom_ready, Vector::EepromReady),
        (interrupt_handler_twi, Vector::Twi),
        (interrupt_handler_spm_ready, Vector::SpmReady),
        (interrupt_handler_usart1_rx, Vector::Usart1Rx),
        (interrupt_handler_usart1_udre, Vector::Usart1Udre),
        (interrupt_handler_usart1_tx, Vector::Usart1Tx),
        (interrupt_handler_timer3_capt, Vector::Timer3Capt),
        (interrupt_handler_timer3_compa, Vector::Timer3Compa),
        (interrupt_handler_timer3_compb, Vector::Timer3Compb),
        (interrupt_handler_timer3_ovf, Vector::Timer3Ovf),
    ];
    assert_eq!(entries.len(), VECTOR_COUNT as usize);
    for (entry, v) in entries {
        let g = routine_of(entry(toks("fn f() { tick(); }")));
        assert_eq!(g.vector, v);
        assert_eq!(g.symbol, v.symbol());
        assert_eq!(g.body.len(), 1);
        assert_eq!(compact(&g.body[0]), "tick();");
    }
}

#[test]
fn statements_kept_in_order() {
    let g = routine_of(transform(
        Vector::Adc,
        toks("fn on_adc() { let a = read(); store(a); if a > 3 { alarm(); } count += 1; }"),
    ));
    let body: Vec<String> = g.body.iter().map(|s| compact(s)).collect();
    assert_eq!(body, vec!["leta=read();", "store(a);", "ifa>3{alarm();}", "count+=1;"]);
    assert_eq!(
        compact(&g.source()),
        "#[no_mangle]pubunsafeextern\"avr-interrupt\"fn__vector_24(){leta=read();store(a);ifa>3{alarm();}count+=1;}"
    );
}

#[test]
fn trailing_expression_is_kept() {
    let g = routine_of(transform(Vector::Wdt, toks("fn w() { reset_counter(); 0 }")));
    let body: Vec<String> = g.body.iter().map(|s| compact(s)).collect();
    assert_eq!(body, vec!["reset_counter();", "0"]);
}

#[test]
fn signature_is_discarded() {
    let with_sig = routine_of(transform(
        Vector::Usart0Rx,
        toks("pub fn receive(byte: u8, count: &mut u16) -> u32 { push(byte); }"),
    ));
    let bare = routine_of(transform(Vector::Usart0Rx, toks("fn other() { push(byte); }")));
    assert_eq!(with_sig.source(), bare.source());
    assert_eq!(with_sig.symbol, "__vector_20");
}

#[test]
fn struct_input_is_malformed() {
    match transform(Vector::Int0, toks("struct Flags { a: u8 }")) {
        Err(TransformError::MalformedInput(m)) => assert!(!m.to_string().is_empty()),
        Ok(_) => panic!("a struct must be refused"),
    }
}

#[test]
fn two_functions_are_malformed() {
    let r = interrupt_handler_int1(toks("fn a() {} fn b() {}"));
    assert!(matches!(r, Err(TransformError::MalformedInput(_))));
}

#[test]
fn unparsable_text_is_malformed() {
    assert!(matches!(transform(Vector::Twi, toks("fn 3() {}")), Err(TransformError::MalformedInput(_))));
    assert!(matches!(transform(Vector::Twi, toks("")), Err(TransformError::MalformedInput(_))));
}

#[test]
fn emit_routine_keeps_given_statements() {
    let g = emit_routine(Vector::Timer3Ovf, vec!["a();".to_string(), "b();".to_string()]);
    assert_eq!(g.symbol, "__vector_34");
    assert_eq!(g.body, vec!["a();".to_string(), "b();".to_string()]);
    assert_eq!(
        g.source(),
        "#[no_mangle]\npub unsafe extern \"avr-interrupt\" fn __vector_34() { a(); b(); }"
    );
}
