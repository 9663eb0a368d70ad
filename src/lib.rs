//! Binding of handler bodies to the interrupt vectors of the ATmega1284p.
//!
//! A handler is written as an ordinary function. The transform keeps the
//! statements of its body, drops its name, parameters and return type, and
//! emits a routine named after the vector's linkage symbol (`__vector_<index>`),
//! with the `avr-interrupt` calling convention and unmangled linkage.

pub mod handlers;
pub mod routine;
pub mod symbol;
pub mod syntax;
pub mod transform;
pub mod vector;

pub use handlers::{
    interrupt_handler_reset,
    interrupt_handler_int0,
    interrupt_handler_int1,
    interrupt_handler_int2,
    interrupt_handler_pcint0,
    interrupt_handler_pcint1,
    interrupt_handler_pcint2,
    interrupt_handler_pcint3,
    interrupt_handler_wdt,
    interrupt_handler_timer2_compa,
    interrupt_handler_timer2_compb,
    interrupt_handler_timer2_ovf,
    interrupt_handler_timer1_capt,
    interrupt_handler_timer1_compa,
    interrupt_handler_timer1_compb,
    interrupt_handler_timer1_ovf,
    interrupt_handler_timer0_compa,
    interrupt_handler_timer0_compb,
    interrupt_handler_timer0_ovf,
    interrupt_handler_spi_stc,
    interrupt_handler_usart0_rx,
    interrupt_handler_usart0_udre,
    interrupt_handler_usart0_tx,
    interrupt_handler_analog_comp,
    interrupt_handler_adc,
    interrupt_handler_eeprom_ready,
    interrupt_handler_twi,
    interrupt_handler_spm_ready,
    interrupt_handler_usart1_rx,
    interrupt_handler_usart1_udre,
    interrupt_handler_usart1_tx,
    interrupt_handler_timer3_capt,
    interrupt_handler_timer3_compa,
    interrupt_handler_timer3_compb,
    interrupt_handler_timer3_ovf,
};
pub use routine::{emit_routine, GeneratedRoutine};
pub use transform::{transform, TransformError};
pub use vector::{Vector, VectorDescriptor, VECTOR_COUNT};
