//! One entry point per vector: each binds a handler's function item to its
//! vector.

use vstd::prelude::*;
use crate::routine::GeneratedRoutine;
use crate::transform::{transform, transform_result, TransformError};
use crate::vector::Vector;

verus! {

/// Binds a handler to the `reset` vector (microcontroller reset).
pub fn interrupt_handler_reset(item: proc_macro2::TokenStream) -> (r: Result<GeneratedRoutine, TransformError>)
    ensures
        transform_result(Vector::Reset, item, r),
{
    transform(Vector::Reset, item)
}

/// Binds a handler to the `int0` vector (external interrupt request 0).
pub fn interrupt_handler_int0(item: proc_macro2::TokenStream) -> (r: Result<GeneratedRoutine, TransformError>)
    ensures
        transform_result(Vector::Int0, item, r),
{
    transform(Vector::Int0, item)
}

/// Binds a handler to the `int1` vector (external interrupt request 1).
pub fn interrupt_handler_int1(item: proc_macro2::TokenStream) -> (r: Result<GeneratedRoutine, TransformError>)
    ensures
        transform_result(Vector::Int1, item, r),
{
    transform(Vector::Int1, item)
}

/// Binds a handler to the `int2` vector (external interrupt request 2).
pub fn interrupt_handler_int2(item: proc_macro2::TokenStream) -> (r: Result<GeneratedRoutine, TransformError>)
    ensures
        transform_result(Vector::Int2, item, r),
{
    transform(Vector::Int2, item)
}

/// Binds a handler to the `pcint0` vector (pin change interrupt request 0, pins 7:0).
pub fn interrupt_handler_pcint0(item: proc_macro2::TokenStream) -> (r: Result<GeneratedRoutine, TransformError>)
    ensures
        transform_result(Vector::Pcint0, item, r),
{
    transform(Vector::Pcint0, item)
}

/// Binds a handler to the `pcint1` vector (pin change interrupt request 1, pins 15:8).
pub fn interrupt_handler_pcint1(item: proc_macro2::TokenStream) -> (r: Result<GeneratedRoutine, TransformError>)
    ensures
        transform_result(Vector::Pcint1, item, r),
{
    transform(Vector::Pcint1, item)
}

/// Binds a handler to the `pcint2` vector (pin change interrupt request 2, pins 23:16).
pub fn interrupt_handler_pcint2(item: proc_macro2::TokenStream) -> (r: Result<GeneratedRoutine, TransformError>)
    ensures
        transform_result(Vector::Pcint2, item, r),
{
    transform(Vector::Pcint2, item)
}

/// Binds a handler to the `pcint3` vector (pin change interrupt request 3, pins 31:24).
pub fn interrupt_handler_pcint3(item: proc_macro2::TokenStream) -> (r: Result<GeneratedRoutine, TransformError>)
    ensures
        transform_result(Vector::Pcint3, item, r),
{
    transform(Vector::Pcint3, item)
}

/// Binds a handler to the `wdt` vector (watchdog time-out interrupt).
pub fn interrupt_handler_wdt(item: proc_macro2::TokenStream) -> (r: Result<GeneratedRoutine, TransformError>)
    ensures
        transform_result(Vector::Wdt, item, r),
{
    transform(Vector::Wdt, item)
}

/// Binds a handler to the `timer2_compa` vector (Timer/Counter2 compare match A).
pub fn interrupt_handler_timer2_compa(item: proc_macro2::TokenStream) -> (r: Result<GeneratedRoutine, TransformError>)
    ensures
        transform_result(Vector::Timer2Compa, item, r),
{
    transform(Vector::Timer2Compa, item)
}

/// Binds a handler to the `timer2_compb` vector (Timer/Counter2 compare match B).
pub fn interrupt_handler_timer2_compb(item: proc_macro2::TokenStream) -> (r: Result<GeneratedRoutine, TransformError>)
    ensures
        transform_result(Vector::Timer2Compb, item, r),
{
    transform(Vector::Timer2Compb, item)
}

/// Binds a handler to the `timer2_ovf` vector (Timer/Counter2 overflow).
pub fn interrupt_handler_timer2_ovf(item: proc_macro2::TokenStream) -> (r: Result<GeneratedRoutine, TransformError>)
    ensures
        transform_result(Vector::Timer2Ovf, item, r),
{
    transform(Vector::Timer2Ovf, item)
}

/// Binds a handler to the `timer1_capt` vector (Timer/Counter1 capture event).
pub fn interrupt_handler_timer1_capt(item: proc_macro2::TokenStream) -> (r: Result<GeneratedRoutine, TransformError>)
    ensures
        transform_result(Vector::Timer1Capt, item, r),
{
    transform(Vector::Timer1Capt, item)
}

/// Binds a handler to the `timer1_compa` vector (Timer/Counter1 compare match A).
pub fn interrupt_handler_timer1_compa(item: proc_macro2::TokenStream) -> (r: Result<GeneratedRoutine, TransformError>)
    ensures
        transform_result(Vector::Timer1Compa, item, r),
{
    transform(Vector::Timer1Compa, item)
}

/// Binds a handler to the `timer1_compb` vector (Timer/Counter1 compare match B).
pub fn interrupt_handler_timer1_compb(item: proc_macro2::TokenStream) -> (r: Result<GeneratedRoutine, TransformError>)
    ensures
        transform_result(Vector::Timer1Compb, item, r),
{
    transform(Vector::Timer1Compb, item)
}

/// Binds a handler to the `timer1_ovf` vector (Timer/Counter1 overflow).
pub fn interrupt_handler_timer1_ovf(item: proc_macro2::TokenStream) -> (r: Result<GeneratedRoutine, TransformError>)
    ensures
        transform_result(Vector::Timer1Ovf, item, r),
{
    transform(Vector::Timer1Ovf, item)
}

/// Binds a handler to the `timer0_compa` vector (Timer/Counter0 compare match A).
pub fn interrupt_handler_timer0_compa(item: proc_macro2::TokenStream) -> (r: Result<GeneratedRoutine, TransformError>)
    ensures
        transform_result(Vector::Timer0Compa, item, r),
{
    transform(Vector::Timer0Compa, item)
}

/// Binds a handler to the `timer0_compb` vector (Timer/Counter0 compare match B).
pub fn interrupt_handler_timer0_compb(item: proc_macro2::TokenStream) -> (r: Result<GeneratedRoutine, TransformError>)
    ensures
        transform_result(Vector::Timer0Compb, item, r),
{
    transform(Vector::Timer0Compb, item)
}

/// Binds a handler to the `timer0_ovf` vector (Timer/Counter0 overflow).
pub fn interrupt_handler_timer0_ovf(item: proc_macro2::TokenStream) -> (r: Result<GeneratedRoutine, TransformError>)
    ensures
        transform_result(Vector::Timer0Ovf, item, r),
{
    transform(Vector::Timer0Ovf, item)
}

/// Binds a handler to the `spi_stc` vector (SPI serial transfer complete).
pub fn interrupt_handler_spi_stc(item: proc_macro2::TokenStream) -> (r: Result<GeneratedRoutine, TransformError>)
    ensures
        transform_result(Vector::SpiStc, item, r),
{
    transform(Vector::SpiStc, item)
}

/// Binds a handler to the `usart0_rx` vector (USART0 Rx complete).
pub fn interrupt_handler_usart0_rx(item: proc_macro2::TokenStream) -> (r: Result<GeneratedRoutine, TransformError>)
    ensures
        transform_result(Vector::Usart0Rx, item, r),
{
    transform(Vector::Usart0Rx, item)
}

/// Binds a handler to the `usart0_udre` vector (USART0 data register empty).
pub fn interrupt_handler_usart0_udre(item: proc_macro2::TokenStream) -> (r: Result<GeneratedRoutine, TransformError>)
    ensures
        transform_result(Vector::Usart0Udre, item, r),
{
    transform(Vector::Usart0Udre, item)
}

/// Binds a handler to the `usart0_tx` vector (USART0 Tx complete).
pub fn interrupt_handler_usart0_tx(item: proc_macro2::TokenStream) -> (r: Result<GeneratedRoutine, TransformError>)
    ensures
        transform_result(Vector::Usart0Tx, item, r),
{
    transform(Vector::Usart0Tx, item)
}

/// Binds a handler to the `analog_comp` vector (analog comparator).
pub fn interrupt_handler_analog_comp(item: proc_macro2::TokenStream) -> (r: Result<GeneratedRoutine, TransformError>)
    ensures
        transform_result(Vector::AnalogComp, item, r),
{
    transform(Vector::AnalogComp, item)
}

/// Binds a handler to the `adc` vector (ADC conversion complete).
pub fn interrupt_handler_adc(item: proc_macro2::TokenStream) -> (r: Result<GeneratedRoutine, TransformError>)
    ensures
        transform_result(Vector::Adc, item, r),
{
    transform(Vector::Adc, item)
}

/// Binds a handler to the `eeprom_ready` vector (EEPROM ready).
pub fn interrupt_handler_eeprom_ready(item: proc_macro2::TokenStream) -> (r: Result<GeneratedRoutine, TransformError>)
    ensures
        transform_result(Vector::EepromReady, item, r),
{
    transform(Vector::EepromReady, item)
}

/// Binds a handler to the `twi` vector (2-wire serial interface).
pub fn interrupt_handler_twi(item: proc_macro2::TokenStream) -> (r: Result<GeneratedRoutine, TransformError>)
    ensures
        transform_result(Vector::Twi, item, r),
{
    transform(Vector::Twi, item)
}

/// Binds a handler to the `spm_ready` vector (store program memory ready).
pub fn interrupt_handler_spm_ready(item: proc_macro2::TokenStream) -> (r: Result<GeneratedRoutine, TransformError>)
    ensures
        transform_result(Vector::SpmReady, item, r),
{
    transform(Vector::SpmReady, item)
}

/// Binds a handler to the `usart1_rx` vector (USART1 Rx complete).
pub fn interrupt_handler_usart1_rx(item: proc_macro2::TokenStream) -> (r: Result<GeneratedRoutine, TransformError>)
    ensures
        transform_result(Vector::Usart1Rx, item, r),
{
    transform(Vector::Usart1Rx, item)
}

/// Binds a handler to the `usart1_udre` vector (USART1 data register empty).
pub fn interrupt_handler_usart1_udre(item: proc_macro2::TokenStream) -> (r: Result<GeneratedRoutine, TransformError>)
    ensures
        transform_result(Vector::Usart1Udre, item, r),
{
    transform(Vector::Usart1Udre, item)
}

/// Binds a handler to the `usart1_tx` vector (USART1 Tx complete).
pub fn interrupt_handler_usart1_tx(item: proc_macro2::TokenStream) -> (r: Result<GeneratedRoutine, TransformError>)
    ensures
        transform_result(Vector::Usart1Tx, item, r),
{
    transform(Vector::Usart1Tx, item)
}

/// Binds a handler to the `timer3_capt` vector (Timer/Counter3 capture event).
pub fn interrupt_handler_timer3_capt(item: proc_macro2::TokenStream) -> (r: Result<GeneratedRoutine, TransformError>)
    ensures
        transform_result(Vector::Timer3Capt, item, r),
{
    transform(Vector::Timer3Capt, item)
}

/// Binds a handler to the `timer3_compa` vector (Timer/Counter3 compare match A).
pub fn interrupt_handler_timer3_compa(item: proc_macro2::TokenStream) -> (r: Result<GeneratedRoutine, TransformError>)
    ensures
        transform_result(Vector::Timer3Compa, item, r),
{
    transform(Vector::Timer3Compa, item)
}

/// Binds a handler to the `timer3_compb` vector (Timer/Counter3 compare match B).
pub fn interrupt_handler_timer3_compb(item: proc_macro2::TokenStream) -> (r: Result<GeneratedRoutine, TransformError>)
    ensures
        transform_result(Vector::Timer3Compb, item, r),
{
    transform(Vector::Timer3Compb, item)
}

/// Binds a handler to the `timer3_ovf` vector (Timer/Counter3 overflow).
pub fn interrupt_handler_timer3_ovf(item: proc_macro2::TokenStream) -> (r: Result<GeneratedRoutine, TransformError>)
    ensures
        transform_result(Vector::Timer3Ovf, item, r),
{
    transform(Vector::Timer3Ovf, item)
}

} // verus!
