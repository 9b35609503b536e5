use vstd::prelude::*;

verus! {

/// A 32-bit real, held as its IEEE 754 bit pattern.
#[derive(Clone, Copy, Debug, PartialEq, Eq, Structural)]
pub struct Real(pub u32);

/// A 64-bit float, held as its IEEE 754 bit pattern.
#[derive(Clone, Copy, Debug, PartialEq, Eq, Structural)]
pub struct Float(pub u64);

/// The four arithmetic operations of the real families.
#[derive(Clone, Copy, Debug, PartialEq, Eq, Structural)]
pub enum RealOp {
    Add,
    Sub,
    Mul,
    Div,
}

/// One piece of work for the floating-point unit. The library never computes
/// on a bit pattern itself: whoever calls it supplies the unit as a function
/// from requests to answers.
#[derive(Debug)]
pub enum RealRequest {
    /// The 32-bit real nearest to a run of decimal digits.
    Literal32(Vec<u8>),
    /// The 64-bit float nearest to a run of decimal digits.
    Literal64(Vec<u8>),
    /// The quotient of two 32-bit integers, each promoted to a 32-bit real.
    Ratio32(i32, i32),
    /// The quotient of two 64-bit integers, each promoted to a 64-bit float.
    Ratio64(i64, i64),
    /// An operation on two 32-bit reals.
    Arith32(RealOp, Real, Real),
    /// An operation on two 64-bit floats.
    Arith64(RealOp, Float, Float),
    /// The decimal text of a 32-bit real.
    Show32(Real),
    /// The decimal text of a 64-bit float.
    Show64(Float),
}

/// What the unit hands back.
#[derive(Debug)]
pub enum RealAnswer {
    Single(Real),
    Double(Float),
    Text(String),
}

/// A request as a mathematical value.
pub enum Request {
    Literal32(Seq<u8>),
    Literal64(Seq<u8>),
    Ratio32(i32, i32),
    Ratio64(i64, i64),
    Arith32(RealOp, Real, Real),
    Arith64(RealOp, Float, Float),
    Show32(Real),
    Show64(Float),
}

/// An answer as a mathematical value.
pub enum Answer {
    Single(Real),
    Double(Float),
    Text(Seq<char>),
}

impl View for RealRequest {
    type V = Request;

    open spec fn view(&self) -> Request {
        match self {
            RealRequest::Literal32(d) => Request::Literal32(d@),
            RealRequest::Literal64(d) => Request::Literal64(d@),
            RealRequest::Ratio32(x, y) => Request::Ratio32(*x, *y),
            RealRequest::Ratio64(x, y) => Request::Ratio64(*x, *y),
            RealRequest::Arith32(op, x, y) => Request::Arith32(*op, *x, *y),
            RealRequest::Arith64(op, x, y) => Request::Arith64(*op, *x, *y),
            RealRequest::Show32(x) => Request::Show32(*x),
            RealRequest::Show64(x) => Request::Show64(*x),
        }
    }
}

impl View for RealAnswer {
    type V = Answer;

    open spec fn view(&self) -> Answer {
        match self {
            RealAnswer::Single(x) => Answer::Single(*x),
            RealAnswer::Double(x) => Answer::Double(*x),
            RealAnswer::Text(s) => Answer::Text(s@),
        }
    }
}

/// The unit as a mathematical function.
pub type Unit = spec_fn(Request) -> Answer;

/// What the library asks of a unit: it takes every request, and gives equal
/// requests equal answers.
pub open spec fn unit_ok<U: Fn(RealRequest) -> RealAnswer>(unit: U) -> bool {
    &&& forall|q: RealRequest| call_requires(unit, (q,))
    &&& forall|q1: RealRequest, a1: RealAnswer, q2: RealRequest, a2: RealAnswer|
        #![trigger call_ensures(unit, (q1,), a1), call_ensures(unit, (q2,), a2)]
        call_ensures(unit, (q1,), a1) && call_ensures(unit, (q2,), a2) && q1@ == q2@ ==> a1@
            == a2@
}

/// Whether `p` is a request with view `q` together with one answer that the
/// unit may give to it.
pub open spec fn answers<U: Fn(RealRequest) -> RealAnswer>(
    unit: U,
    q: Request,
    p: (RealRequest, RealAnswer),
) -> bool {
    p.0@ == q && call_ensures(unit, (p.0,), p.1)
}

/// The function that a well-behaved unit computes.
pub open spec fn unit_model<U: Fn(RealRequest) -> RealAnswer>(unit: U) -> Unit {
    |q: Request| (choose|p: (RealRequest, RealAnswer)| answers(unit, q, p)).1@
}

/// The 32-bit real that an answer holds; an answer of another kind stands
/// for zero.
pub open spec fn single(a: Answer) -> Real {
    match a {
        Answer::Single(x) => x,
        _ => Real(0),
    }
}

/// The 64-bit float that an answer holds; an answer of another kind stands
/// for zero.
pub open spec fn double(a: Answer) -> Float {
    match a {
        Answer::Double(x) => x,
        _ => Float(0),
    }
}

/// The text that an answer holds; an answer of another kind stands for the
/// empty text.
pub open spec fn text_of(a: Answer) -> Seq<char> {
    match a {
        Answer::Text(s) => s,
        _ => Seq::empty(),
    }
}

/// Puts one request to the unit.
pub fn ask<U: Fn(RealRequest) -> RealAnswer>(unit: &U, q: RealRequest) -> (a: RealAnswer)
    requires
        unit_ok(*unit),
    ensures
        a@ == unit_model(*unit)(q@),
{
    let ghost m = q@;
    let ghost q0 = q;
    let a = unit(q);
    proof {
        assert(answers(*unit, m, (q0, a)));
        let p = choose|p: (RealRequest, RealAnswer)| answers(*unit, m, p);
    }
    a
}

/// Asks the unit for a 32-bit real.
pub fn ask_single<U: Fn(RealRequest) -> RealAnswer>(unit: &U, q: RealRequest) -> (r: Real)
    requires
        unit_ok(*unit),
    ensures
        r == single(unit_model(*unit)(q@)),
{
    match ask(unit, q) {
        RealAnswer::Single(x) => x,
        _ => Real(0),
    }
}

/// Asks the unit for a 64-bit float.
pub fn ask_double<U: Fn(RealRequest) -> RealAnswer>(unit: &U, q: RealRequest) -> (r: Float)
    requires
        unit_ok(*unit),
    ensures
        r == double(unit_model(*unit)(q@)),
{
    match ask(unit, q) {
        RealAnswer::Double(x) => x,
        _ => Float(0),
    }
}

/// Asks the unit for the text of a real.
pub fn ask_text<U: Fn(RealRequest) -> RealAnswer>(unit: &U, q: RealRequest) -> (r: String)
    requires
        unit_ok(*unit),
    ensures
        r@ == text_of(unit_model(*unit)(q@)),
{
    match ask(unit, q) {
        RealAnswer::Text(s) => s,
        _ => String::new(),
    }
}

} // verus!
