//! The interrupt vector table of the ATmega1284p: every vector that a handler
//! can be bound to, with its index in the vector table, its identifier and
//! what triggers it.

use vstd::prelude::*;

verus! {

/// Number of entries in the vector table.
pub const VECTOR_COUNT: u8 = 35;

/// Everything the table records of one vector.
#[derive(Clone, Debug)]
pub struct VectorDescriptor {
    /// The symbolic name by which handlers select the vector.
    pub identifier: &'static str,
    /// Position of the vector in the vector table.
    pub index: u8,
    /// The linkage symbol the vector table expects.
    pub symbol: String,
    /// What triggers the vector.
    pub description: &'static str,
}

/// One interrupt vector of the ATmega1284p, in the order of the vector
/// table. That order is the datasheet's, but for `timer0_ovf` and
/// `timer2_compb`: this table gives `timer0_ovf` index 10 and `timer2_compb`
/// index 18, where the datasheet has them the other way round.
#[derive(Clone, Copy, Debug, PartialEq, Eq, Structural)]
pub enum Vector {
    /// Microcontroller reset.
    Reset,
    /// External interrupt request 0.
    Int0,
    /// External interrupt request 1.
    Int1,
    /// External interrupt request 2.
    Int2,
    /// Pin change interrupt request 0 (pins 7:0).
    Pcint0,
    /// Pin change interrupt request 1 (pins 15:8).
    Pcint1,
    /// Pin change interrupt request 2 (pins 23:16).
    Pcint2,
    /// Pin change interrupt request 3 (pins 31:24).
    Pcint3,
    /// Watchdog time-out interrupt.
    Wdt,
    /// Timer/Counter2 compare match A.
    Timer2Compa,
    /// Timer/Counter0 overflow.
    Timer0Ovf,
    /// Timer/Counter2 overflow.
    Timer2Ovf,
    /// Timer/Counter1 capture event.
    Timer1Capt,
    /// Timer/Counter1 compare match A.
    Timer1Compa,
    /// Timer/Counter1 compare match B.
    Timer1Compb,
    /// Timer/Counter1 overflow.
    Timer1Ovf,
    /// Timer/Counter0 compare match A.
    Timer0Compa,
    /// Timer/Counter0 compare match B.
    Timer0Compb,
    /// Timer/Counter2 compare match B.
    Timer2Compb,
    /// SPI serial transfer complete.
    SpiStc,
    /// USART0 Rx complete.
    Usart0Rx,
    /// USART0 data register empty.
    Usart0Udre,
    /// USART0 Tx complete.
    Usart0Tx,
    /// Analog comparator.
    AnalogComp,
    /// ADC conversion complete.
    Adc,
    /// EEPROM ready.
    EepromReady,
    /// 2-wire serial interface.
    Twi,
    /// Store program memory ready.
    SpmReady,
    /// USART1 Rx complete.
    Usart1Rx,
    /// USART1 data register empty.
    Usart1Udre,
    /// USART1 Tx complete.
    Usart1Tx,
    /// Timer/Counter3 capture event.
    Timer3Capt,
    /// Timer/Counter3 compare match A.
    Timer3Compa,
    /// Timer/Counter3 compare match B.
    Timer3Compb,
    /// Timer/Counter3 overflow.
    Timer3Ovf,
}

impl Vector {
    /// Position of the vector in the vector table.
    pub open spec fn spec_index(self) -> nat {
        match self {
            Vector::Reset => 0,
            Vector::Int0 => 1,
            Vector::Int1 => 2,
            Vector::Int2 => 3,
            Vector::Pcint0 => 4,
            Vector::Pcint1 => 5,
            Vector::Pcint2 => 6,
            Vector::Pcint3 => 7,
            Vector::Wdt => 8,
            Vector::Timer2Compa => 9,
            Vector::Timer2Compb => 18,
            Vector::Timer2Ovf => 11,
            Vector::Timer1Capt => 12,
            Vector::Timer1Compa => 13,
            Vector::Timer1Compb => 14,
            Vector::Timer1Ovf => 15,
            Vector::Timer0Compa => 16,
            Vector::Timer0Compb => 17,
            Vector::Timer0Ovf => 10,
            Vector::SpiStc => 19,
            Vector::Usart0Rx => 20,
            Vector::Usart0Udre => 21,
            Vector::Usart0Tx => 22,
            Vector::AnalogComp => 23,
            Vector::Adc => 24,
            Vector::EepromReady => 25,
            Vector::Twi => 26,
            Vector::SpmReady => 27,
            Vector::Usart1Rx => 28,
            Vector::Usart1Udre => 29,
            Vector::Usart1Tx => 30,
            Vector::Timer3Capt => 31,
            Vector::Timer3Compa => 32,
            Vector::Timer3Compb => 33,
            Vector::Timer3Ovf => 34,
        }
    }

    /// The symbolic name by which handlers select the vector.
    pub open spec fn spec_identifier(self) -> Seq<char> {
        match self {
            Vector::Reset => "reset"@,
            Vector::Int0 => "int0"@,
            Vector::Int1 => "int1"@,
            Vector::Int2 => "int2"@,
            Vector::Pcint0 => "pcint0"@,
            Vector::Pcint1 => "pcint1"@,
            Vector::Pcint2 => "pcint2"@,
            Vector::Pcint3 => "pcint3"@,
            Vector::Wdt => "wdt"@,
            Vector::Timer2Compa => "timer2_compa"@,
            Vector::Timer2Compb => "timer2_compb"@,
            Vector::Timer2Ovf => "timer2_ovf"@,
            Vector::Timer1Capt => "timer1_capt"@,
            Vector::Timer1Compa => "timer1_compa"@,
            Vector::Timer1Compb => "timer1_compb"@,
            Vector::Timer1Ovf => "timer1_ovf"@,
            Vector::Timer0Compa => "timer0_compa"@,
            Vector::Timer0Compb => "timer0_compb"@,
            Vector::Timer0Ovf => "timer0_ovf"@,
            Vector::SpiStc => "spi_stc"@,
            Vector::Usart0Rx => "usart0_rx"@,
            Vector::Usart0Udre => "usart0_udre"@,
            Vector::Usart0Tx => "usart0_tx"@,
            Vector::AnalogComp => "analog_comp"@,
            Vector::Adc => "adc"@,
            Vector::EepromReady => "eeprom_ready"@,
            Vector::Twi => "twi"@,
            Vector::SpmReady => "spm_ready"@,
            Vector::Usart1Rx => "usart1_rx"@,
            Vector::Usart1Udre => "usart1_udre"@,
            Vector::Usart1Tx => "usart1_tx"@,
            Vector::Timer3Capt => "timer3_capt"@,
            Vector::Timer3Compa => "timer3_compa"@,
            Vector::Timer3Compb => "timer3_compb"@,
            Vector::Timer3Ovf => "timer3_ovf"@,
        }
    }

    /// What triggers the vector.
    pub open spec fn spec_description(self) -> Seq<char> {
        match self {
            Vector::Reset => "Microcontroller reset"@,
            Vector::Int0 => "External interrupt request 0"@,
            Vector::Int1 => "External interrupt request 1"@,
            Vector::Int2 => "External interrupt request 2"@,
            Vector::Pcint0 => "Pin change interrupt request 0 (pins 7:0)"@,
            Vector::Pcint1 => "Pin change interrupt request 1 (pins 15:8)"@,
            Vector::Pcint2 => "Pin change interrupt request 2 (pins 23:16)"@,
            Vector::Pcint3 => "Pin change interrupt request 3 (pins 31:24)"@,
            Vector::Wdt => "Watchdog time-out interrupt"@,
            Vector::Timer2Compa => "Timer/Counter2 compare match A"@,
            Vector::Timer2Compb => "Timer/Counter2 compare match B"@,
            Vector::Timer2Ovf => "Timer/Counter2 overflow"@,
            Vector::Timer1Capt => "Timer/Counter1 capture event"@,
            Vector::Timer1Compa => "Timer/Counter1 compare match A"@,
            Vector::Timer1Compb => "Timer/Counter1 compare match B"@,
            Vector::Timer1Ovf => "Timer/Counter1 overflow"@,
            Vector::Timer0Compa => "Timer/Counter0 compare match A"@,
            Vector::Timer0Compb => "Timer/Counter0 compare match B"@,
            Vector::Timer0Ovf => "Timer/Counter0 overflow"@,
            Vector::SpiStc => "SPI serial transfer complete"@,
            Vector::Usart0Rx => "USART0 Rx complete"@,
            Vector::Usart0Udre => "USART0 data register empty"@,
            Vector::Usart0Tx => "USART0 Tx complete"@,
            Vector::AnalogComp => "Analog comparator"@,
            Vector::Adc => "ADC conversion complete"@,
            Vector::EepromReady => "EEPROM ready"@,
            Vector::Twi => "2-wire serial interface"@,
            Vector::SpmReady => "Store program memory ready"@,
            Vector::Usart1Rx => "USART1 Rx complete"@,
            Vector::Usart1Udre => "USART1 data register empty"@,
            Vector::Usart1Tx => "USART1 Tx complete"@,
            Vector::Timer3Capt => "Timer/Counter3 capture event"@,
            Vector::Timer3Compa => "Timer/Counter3 compare match A"@,
            Vector::Timer3Compb => "Timer/Counter3 compare match B"@,
            Vector::Timer3Ovf => "Timer/Counter3 overflow"@,
        }
    }

    /// Position of the vector in the vector table.
    pub fn index(self) -> (r: u8)
        ensures
            r as nat == self.spec_index(),
            r < VECTOR_COUNT,
    {
        match self {
            Vector::Reset => 0,
            Vector::Int0 => 1,
            Vector::Int1 => 2,
            Vector::Int2 => 3,
            Vector::Pcint0 => 4,
            Vector::Pcint1 => 5,
            Vector::Pcint2 => 6,
            Vector::Pcint3 => 7,
            Vector::Wdt => 8,
            Vector::Timer2Compa => 9,
            Vector::Timer2Compb => 18,
            Vector::Timer2Ovf => 11,
            Vector::Timer1Capt => 12,
            Vector::Timer1Compa => 13,
            Vector::Timer1Compb => 14,
            Vector::Timer1Ovf => 15,
            Vector::Timer0Compa => 16,
            Vector::Timer0Compb => 17,
            Vector::Timer0Ovf => 10,
            Vector::SpiStc => 19,
            Vector::Usart0Rx => 20,
            Vector::Usart0Udre => 21,
            Vector::Usart0Tx => 22,
            Vector::AnalogComp => 23,
            Vector::Adc => 24,
            Vector::EepromReady => 25,
            Vector::Twi => 26,
            Vector::SpmReady => 27,
            Vector::Usart1Rx => 28,
            Vector::Usart1Udre => 29,
            Vector::Usart1Tx => 30,
            Vector::Timer3Capt => 31,
            Vector::Timer3Compa => 32,
            Vector::Timer3Compb => 33,
            Vector::Timer3Ovf => 34,
        }
    }

    /// The vector at position `i` of the table, if the table has one there.
    pub fn from_index(i: u8) -> (r: Option<Vector>)
        ensures
            match r {
                Some(v) => v.spec_index() == i as nat,
                None => i >= VECTOR_COUNT,
            },
    {
        match i {
            0 => Some(Vector::Reset),
            1 => Some(Vector::Int0),
            2 => Some(Vector::Int1),
            3 => Some(Vector::Int2),
            4 => Some(Vector::Pcint0),
            5 => Some(Vector::Pcint1),
            6 => Some(Vector::Pcint2),
            7 => Some(Vector::Pcint3),
            8 => Some(Vector::Wdt),
            9 => Some(Vector::Timer2Compa),
            10 => Some(Vector::Timer0Ovf),
            11 => Some(Vector::Timer2Ovf),
            12 => Some(Vector::Timer1Capt),
            13 => Some(Vector::Timer1Compa),
            14 => Some(Vector::Timer1Compb),
            15 => Some(Vector::Timer1Ovf),
            16 => Some(Vector::Timer0Compa),
            17 => Some(Vector::Timer0Compb),
            18 => Some(Vector::Timer2Compb),
            19 => Some(Vector::SpiStc),
            20 => Some(Vector::Usart0Rx),
            21 => Some(Vector::Usart0Udre),
            22 => Some(Vector::Usart0Tx),
            23 => Some(Vector::AnalogComp),
            24 => Some(Vector::Adc),
            25 => Some(Vector::EepromReady),
            26 => Some(Vector::Twi),
            27 => Some(Vector::SpmReady),
            28 => Some(Vector::Usart1Rx),
            29 => Some(Vector::Usart1Udre),
            30 => Some(Vector::Usart1Tx),
            31 => Some(Vector::Timer3Capt),
            32 => Some(Vector::Timer3Compa),
            33 => Some(Vector::Timer3Compb),
            34 => Some(Vector::Timer3Ovf),
            _ => None,
        }
    }

    /// The symbolic name by which handlers select the vector.
    pub fn identifier(self) -> (r: &'static str)
        ensures
            r@ == self.spec_identifier(),
    {
        match self {
            Vector::Reset => "reset",
            Vector::Int0 => "int0",
            Vector::Int1 => "int1",
            Vector::Int2 => "int2",
            Vector::Pcint0 => "pcint0",
            Vector::Pcint1 => "pcint1",
            Vector::Pcint2 => "pcint2",
            Vector::Pcint3 => "pcint3",
            Vector::Wdt => "wdt",
            Vector::Timer2Compa => "timer2_compa",
            Vector::Timer2Compb => "timer2_compb",
            Vector::Timer2Ovf => "timer2_ovf",
            Vector::Timer1Capt => "timer1_capt",
            Vector::Timer1Compa => "timer1_compa",
            Vector::Timer1Compb => "timer1_compb",
            Vector::Timer1Ovf => "timer1_ovf",
            Vector::Timer0Compa => "timer0_compa",
            Vector::Timer0Compb => "timer0_compb",
            Vector::Timer0Ovf => "timer0_ovf",
            Vector::SpiStc => "spi_stc",
            Vector::Usart0Rx => "usart0_rx",
            Vector::Usart0Udre => "usart0_udre",
            Vector::Usart0Tx => "usart0_tx",
            Vector::AnalogComp => "analog_comp",
            Vector::Adc => "adc",
            Vector::EepromReady => "eeprom_ready",
            Vector::Twi => "twi",
            Vector::SpmReady => "spm_ready",
            Vector::Usart1Rx => "usart1_rx",
            Vector::Usart1Udre => "usart1_udre",
            Vector::Usart1Tx => "usart1_tx",
            Vector::Timer3Capt => "timer3_capt",
            Vector::Timer3Compa => "timer3_compa",
            Vector::Timer3Compb => "timer3_compb",
            Vector::Timer3Ovf => "timer3_ovf",
        }
    }

    /// What triggers the vector.
    pub fn description(self) -> (r: &'static str)
        ensures
            r@ == self.spec_description(),
    {
        match self {
            Vector::Reset => "Microcontroller reset",
            Vector::Int0 => "External interrupt request 0",
            Vector::Int1 => "External interrupt request 1",
            Vector::Int2 => "External interrupt request 2",
            Vector::Pcint0 => "Pin change interrupt request 0 (pins 7:0)",
            Vector::Pcint1 => "Pin change interrupt request 1 (pins 15:8)",
            Vector::Pcint2 => "Pin change interrupt request 2 (pins 23:16)",
            Vector::Pcint3 => "Pin change interrupt request 3 (pins 31:24)",
            Vector::Wdt => "Watchdog time-out interrupt",
            Vector::Timer2Compa => "Timer/Counter2 compare match A",
            Vector::Timer2Compb => "Timer/Counter2 compare match B",
            Vector::Timer2Ovf => "Timer/Counter2 overflow",
            Vector::Timer1Capt => "Timer/Counter1 capture event",
            Vector::Timer1Compa => "Timer/Counter1 compare match A",
            Vector::Timer1Compb => "Timer/Counter1 compare match B",
            Vector::Timer1Ovf => "Timer/Counter1 overflow",
            Vector::Timer0Compa => "Timer/Counter0 compare match A",
            Vector::Timer0Compb => "Timer/Counter0 compare match B",
            Vector::Timer0Ovf => "Timer/Counter0 overflow",
            Vector::SpiStc => "SPI serial transfer complete",
            Vector::Usart0Rx => "USART0 Rx complete",
            Vector::Usart0Udre => "USART0 data register empty",
            Vector::Usart0Tx => "USART0 Tx complete",
            Vector::AnalogComp => "Analog comparator",
            Vector::Adc => "ADC conversion complete",
            Vector::EepromReady => "EEPROM ready",
            Vector::Twi => "2-wire serial interface",
            Vector::SpmReady => "Store program memory ready",
            Vector::Usart1Rx => "USART1 Rx complete",
            Vector::Usart1Udre => "USART1 data register empty",
            Vector::Usart1Tx => "USART1 Tx complete",
            Vector::Timer3Capt => "Timer/Counter3 capture event",
            Vector::Timer3Compa => "Timer/Counter3 compare match A",
            Vector::Timer3Compb => "Timer/Counter3 compare match B",
            Vector::Timer3Ovf => "Timer/Counter3 overflow",
        }
    }
}

} // verus!
