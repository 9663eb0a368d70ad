//! The routine that a handler becomes: the vector's linkage symbol, the
//! interrupt calling convention, unmangled linkage and the handler's statements.

use vstd::prelude::*;
use crate::symbol::vector_symbol;
use crate::syntax::texts;
use crate::vector::Vector;

verus! {

/// A generated interrupt routine.
#[derive(Clone, Debug)]
pub struct GeneratedRoutine {
    /// The vector the routine is bound to.
    pub vector: Vector,
    /// The linkage symbol the routine is exported under.
    pub symbol: String,
    /// The statements of the routine's body, as source text, in order.
    pub body: Vec<String>,
}

/// What a generated routine stands for.
pub struct RoutineView {
    pub vector: Vector,
    pub symbol: Seq<char>,
    pub body: Seq<Seq<char>>,
}

impl View for GeneratedRoutine {
    type V = RoutineView;

    open spec fn view(&self) -> RoutineView {
        RoutineView { vector: self.vector, symbol: self.symbol@, body: texts(self.body@) }
    }
}

/// The routine bound to `v` whose body is `body`.
pub open spec fn routine_model(v: Vector, body: Seq<Seq<char>>) -> RoutineView {
    RoutineView { vector: v, symbol: vector_symbol(v), body }
}

/// Everything in front of the symbol: the attribute that turns off name
/// mangling and the `avr-interrupt` calling convention.
pub open spec fn routine_head() -> Seq<char> {
    "#[no_mangle]\npub unsafe extern \"avr-interrupt\" fn "@
}

/// The statements one after another, each after a space.
pub open spec fn joined(body: Seq<Seq<char>>) -> Seq<char>
    decreases body.len(),
{
    if body.len() == 0 {
        Seq::empty()
    } else {
        joined(body.drop_last()) + " "@ + body.last()
    }
}

/// The source text of a routine named `symbol` with the statements `body`.
pub open spec fn routine_source(symbol: Seq<char>, body: Seq<Seq<char>>) -> Seq<char> {
    routine_head() + symbol + "() {"@ + joined(body) + " }"@
}

/// The source text of a routine.
pub open spec fn routine_text(m: RoutineView) -> Seq<char> {
    routine_source(m.symbol, m.body)
}

/// Binds the statements `body` to the vector `vector`: the routine carries the
/// vector's linkage symbol and exactly these statements, in this order.
pub fn emit_routine(vector: Vector, body: Vec<String>) -> (r: GeneratedRoutine)
    ensures
        r@ == routine_model(vector, texts(body@)),
{
    GeneratedRoutine { vector, symbol: vector.symbol(), body }
}

impl GeneratedRoutine {
    /// The routine as Rust source text.
    pub fn source(&self) -> (r: String)
        ensures
            r@ == routine_text(self@),
    {
        let ghost body = texts(self.body@);
        let mut s = String::from_str("#[no_mangle]\npub unsafe extern \"avr-interrupt\" fn ");
        s.append(self.symbol.as_str());
        s.append("() {");
        let ghost start = s@;
        let mut i: usize = 0;
        while i < self.body.len()
            invariant
                i <= self.body@.len(),
                body == texts(self.body@),
                s@ == start + joined(body.take(i as int)),
            decreases self.body@.len() - i,
        {
            s.append(" ");
            s.append(self.body[i].as_str());
            proof {
                assert(body.take(i + 1).drop_last() =~= body.take(i as int));
                assert(body.take(i + 1).last() == self.body@[i as int]@);
            }
            i = i + 1;
        }
        assert(body.take(i as int) =~= body);
        s.append(" }");
        s
    }
}

} // verus!
