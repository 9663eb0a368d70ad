//! Linkage symbols: the fixed prefix followed by the vector's index in decimal.

use vstd::prelude::*;
use crate::vector::{Vector, VectorDescriptor, VECTOR_COUNT};

verus! {

/// The character of the decimal digit `d`.
pub open spec fn digit_char(d: nat) -> char {
    if d == 0 {
        '0'
    } else if d == 1 {
        '1'
    } else if d == 2 {
        '2'
    } else if d == 3 {
        '3'
    } else if d == 4 {
        '4'
    } else if d == 5 {
        '5'
    } else if d == 6 {
        '6'
    } else if d == 7 {
        '7'
    } else if d == 8 {
        '8'
    } else {
        '9'
    }
}

/// The value of a decimal digit character (`0` for any other character).
pub open spec fn digit_value(c: char) -> nat {
    if c == '1' {
        1
    } else if c == '2' {
        2
    } else if c == '3' {
        3
    } else if c == '4' {
        4
    } else if c == '5' {
        5
    } else if c == '6' {
        6
    } else if c == '7' {
        7
    } else if c == '8' {
        8
    } else if c == '9' {
        9
    } else {
        0
    }
}

/// `n` written in decimal, without leading zeros.
pub open spec fn decimal(n: nat) -> Seq<char>
    decreases n,
{
    if n < 10 {
        seq![digit_char(n)]
    } else {
        decimal(n / 10).push(digit_char(n % 10))
    }
}

/// The number that a string of decimal digits denotes.
pub open spec fn decimal_value(s: Seq<char>) -> nat
    decreases s.len(),
{
    if s.len() == 0 {
        0
    } else {
        decimal_value(s.drop_last()) * 10 + digit_value(s.last())
    }
}

/// The prefix that the linker expects in front of a vector's index.
pub open spec fn symbol_prefix() -> Seq<char> {
    "__vector_"@
}

/// The linkage symbol of the vector at position `index`.
pub open spec fn symbol_of_index(index: nat) -> Seq<char> {
    symbol_prefix() + decimal(index)
}

/// The linkage symbol that the hardware's vector table expects for `v`.
pub open spec fn vector_symbol(v: Vector) -> Seq<char> {
    symbol_of_index(v.spec_index())
}

/// Reading back the decimal form of `n` gives `n`.
pub proof fn lemma_decimal_value(n: nat)
    ensures
        decimal_value(decimal(n)) == n,
    decreases n,
{
    let d = n % 10;
    assert(digit_value(digit_char(d)) == d);
    let s = decimal(n);
    if n >= 10 {
        lemma_decimal_value(n / 10);
        assert(s.drop_last() =~= decimal(n / 10));
        assert(s.last() == digit_char(d));
        assert(n == (n / 10) * 10 + d);
        assert(decimal_value(s) == decimal_value(s.drop_last()) * 10 + digit_value(s.last()));
    } else {
        assert(s.drop_last() =~= Seq::<char>::empty());
        assert(s.last() == digit_char(d));
        assert(decimal_value(s) == decimal_value(s.drop_last()) * 10 + digit_value(s.last()));
    }
}

/// Distinct numbers have distinct decimal forms.
pub proof fn lemma_decimal_injective(a: nat, b: nat)
    ensures
        decimal(a) == decimal(b) ==> a == b,
{
    lemma_decimal_value(a);
    lemma_decimal_value(b);
}

/// Distinct indices give distinct linkage symbols.
pub proof fn lemma_symbol_of_index_injective(a: nat, b: nat)
    ensures
        symbol_of_index(a) == symbol_of_index(b) ==> a == b,
{
    if symbol_of_index(a) == symbol_of_index(b) {
        let p = symbol_prefix();
        assert(decimal(a) =~= symbol_of_index(a).subrange(p.len() as int, symbol_of_index(a).len() as int));
        assert(decimal(b) =~= symbol_of_index(b).subrange(p.len() as int, symbol_of_index(b).len() as int));
        lemma_decimal_injective(a, b);
    }
}

/// The vector table maps identifiers to indices one to one, and to linkage
/// symbols one to one: every vector has an index inside the table, the vector
/// at that index is the vector itself, and no two vectors share a symbol.
pub proof fn lemma_vector_symbols_distinct(a: Vector, b: Vector)
    ensures
        a.spec_index() < VECTOR_COUNT,
        a.spec_index() == b.spec_index() ==> a == b,
        a != b ==> vector_symbol(a) != vector_symbol(b),
{
    lemma_symbol_of_index_injective(a.spec_index(), b.spec_index());
}

/// The decimal digit `d` as a string.
fn digit_str(d: u8) -> (r: &'static str)
    requires
        d < 10,
    ensures
        r@ == seq![digit_char(d as nat)],
{
    proof {
        reveal_strlit("0");
        reveal_strlit("1");
        reveal_strlit("2");
        reveal_strlit("3");
        reveal_strlit("4");
        reveal_strlit("5");
        reveal_strlit("6");
        reveal_strlit("7");
        reveal_strlit("8");
        reveal_strlit("9");
    }
    match d {
        0 => "0",
        1 => "1",
        2 => "2",
        3 => "3",
        4 => "4",
        5 => "5",
        6 => "6",
        7 => "7",
        8 => "8",
        _ => "9",
    }
}

/// `n` written in decimal.
pub fn decimal_string(n: u8) -> (r: String)
    ensures
        r@ == decimal(n as nat),
    decreases n,
{
    if n < 10 {
        String::from_str(digit_str(n))
    } else {
        let mut s = decimal_string(n / 10);
        s.append(digit_str(n % 10));
        s
    }
}

/// The linkage symbol of the vector at position `index`.
pub fn index_symbol(index: u8) -> (r: String)
    ensures
        r@ == symbol_of_index(index as nat),
{
    let mut s = String::from_str("__vector_");
    let digits = decimal_string(index);
    s.append(digits.as_str());
    s
}

impl Vector {
    /// The linkage symbol that the hardware's vector table expects for this vector.
    pub fn symbol(self) -> (r: String)
        ensures
            r@ == vector_symbol(self),
    {
        index_symbol(self.index())
    }

    /// The table's entry for this vector.
    pub fn descriptor(self) -> (r: VectorDescriptor)
        ensures
            r.identifier@ == self.spec_identifier(),
            r.index as nat == self.spec_index(),
            r.symbol@ == vector_symbol(self),
            r.description@ == self.spec_description(),
    {
        VectorDescriptor {
            identifier: self.identifier(),
            index: self.index(),
            symbol: self.symbol(),
            description: self.description(),
        }
    }

    /// The vector whose identifier is `id`, if the table has one (the first in
    /// table order).
    pub fn from_identifier(id: &str) -> (r: Option<Vector>)
        ensures
            match r {
                Some(v) => {
                    &&& v.spec_identifier() == id@
                    &&& forall|w: Vector| w.spec_index() < v.spec_index() ==> w.spec_identifier()
                        != id@
                },
                None => forall|v: Vector| v.spec_identifier() != id@,
            },
    {
        let target = String::from_str(id);
        let mut i: u8 = 0;
        while i < VECTOR_COUNT
            invariant
                i <= VECTOR_COUNT,
                target@ == id@,
                forall|v: Vector| v.spec_index() < i ==> v.spec_identifier() != id@,
            decreases VECTOR_COUNT - i,
        {
            match Vector::from_index(i) {
                Some(w) => {
                    let name = String::from_str(w.identifier());
                    if name == target {
                        return Some(w);
                    }
                    assert forall|v: Vector| v.spec_index() <= i implies v.spec_identifier()
                        != id@ by {
                        lemma_vector_symbols_distinct(v, w);
                    }
                },
                None => {},
            }
            i = i + 1;
        }
        assert forall|v: Vector| v.spec_identifier() != id@ by {
            lemma_vector_symbols_distinct(v, v);
        }
        None
    }
}

} // verus!
