use vstd::prelude::*;
use vstd::wrapping::i32_specs;
use vstd::wrapping::i64_specs;
use crate::error::KrEvalError;
use crate::init::{Bindings, Env, agrees};
use crate::kr::{Kr, Value, lemma_values_push, values};
use crate::reals::{
    Float, Real, RealAnswer, RealOp, RealRequest, Request, Unit, ask_double, ask_single, double,
    single, unit_model, unit_ok,
};

verus! {

/// The dyadic built-ins.
#[derive(Clone, Copy, Debug, PartialEq, Eq, Structural)]
pub enum Op {
    Addition,
    Subtraction,
    Multiplication,
    Division,
    Assign,
    Join,
}

/// A dyadic built-in as a value; its text and its rank follow from `op`.
#[derive(Clone, Copy, Debug, PartialEq, Eq, Structural)]
pub struct Operator {
    op: Op,
}

impl View for Operator {
    type V = Op;

    closed spec fn view(&self) -> Op {
        self.op
    }
}

/// The character that each operator is written with.
pub open spec fn op_text(op: Op) -> Seq<char> {
    match op {
        Op::Addition => "+"@,
        Op::Subtraction => "-"@,
        Op::Multiplication => "*"@,
        Op::Division => "%"@,
        Op::Assign => ":"@,
        Op::Join => ","@,
    }
}

/// The operation of the unit that an arithmetic operator stands for.
pub open spec fn real_op(op: Op) -> RealOp {
    match op {
        Op::Addition => RealOp::Add,
        Op::Subtraction => RealOp::Sub,
        Op::Multiplication => RealOp::Mul,
        _ => RealOp::Div,
    }
}

/// Sum, difference or product of two 32-bit integers; a result out of range
/// wraps round.
pub open spec fn int32_spec(op: Op, x: i32, y: i32) -> i32 {
    match op {
        Op::Addition => i32_specs::wrapping_add(x, y),
        Op::Subtraction => i32_specs::wrapping_sub(x, y),
        _ => i32_specs::wrapping_mul(x, y),
    }
}

/// Sum, difference or product of two 64-bit integers; a result out of range
/// wraps round.
pub open spec fn int64_spec(op: Op, x: i64, y: i64) -> i64 {
    match op {
        Op::Addition => i64_specs::wrapping_add(x, y),
        Op::Subtraction => i64_specs::wrapping_sub(x, y),
        _ => i64_specs::wrapping_mul(x, y),
    }
}

/// Sum, difference or product of two 32-bit reals, as the unit computes it.
pub open spec fn real32_spec(unit: Unit, op: Op, x: Real, y: Real) -> Real {
    single(unit(Request::Arith32(real_op(op), x, y)))
}

/// Sum, difference or product of two 64-bit floats, as the unit computes it.
pub open spec fn real64_spec(unit: Unit, op: Op, x: Float, y: Float) -> Float {
    double(unit(Request::Arith64(real_op(op), x, y)))
}

/// Addition, subtraction and multiplication. Two scalars of one numeric
/// family give a scalar of that family. Two vectors of one family and one
/// length give the vector of the results item by item; of two lengths, a
/// `Length` error. Every other pair is a `Type` error.
pub open spec fn elementwise_spec(unit: Unit, op: Op, x: Value, y: Value) -> Result<
    Value,
    KrEvalError,
>
    recommends
        op == Op::Addition || op == Op::Subtraction || op == Op::Multiplication,
{
    match (x, y) {
        (Value::I(a), Value::I(b)) => Ok(Value::I(int32_spec(op, a, b))),
        (Value::J(a), Value::J(b)) => Ok(Value::J(int64_spec(op, a, b))),
        (Value::E(a), Value::E(b)) => Ok(Value::E(real32_spec(unit, op, a, b))),
        (Value::F(a), Value::F(b)) => Ok(Value::F(real64_spec(unit, op, a, b))),
        (Value::Iv(a), Value::Iv(b)) => {
            if a.len() == b.len() {
                Ok(Value::Iv(Seq::new(a.len(), |i: int| int32_spec(op, a[i], b[i]))))
            } else {
                Err(KrEvalError::Length)
            }
        },
        (Value::Jv(a), Value::Jv(b)) => {
            if a.len() == b.len() {
                Ok(Value::Jv(Seq::new(a.len(), |i: int| int64_spec(op, a[i], b[i]))))
            } else {
                Err(KrEvalError::Length)
            }
        },
        (Value::Ev(a), Value::Ev(b)) => {
            if a.len() == b.len() {
                Ok(Value::Ev(Seq::new(a.len(), |i: int| real32_spec(unit, op, a[i], b[i]))))
            } else {
                Err(KrEvalError::Length)
            }
        },
        (Value::Fv(a), Value::Fv(b)) => {
            if a.len() == b.len() {
                Ok(Value::Fv(Seq::new(a.len(), |i: int| real64_spec(unit, op, a[i], b[i]))))
            } else {
                Err(KrEvalError::Length)
            }
        },
        _ => Err(KrEvalError::Type),
    }
}

/// Division, which is true division: two integers of one family are
/// promoted and give a real of the same width; two reals of one family stay
/// in it. Every other pair is a `Type` error.
pub open spec fn division_spec(unit: Unit, x: Value, y: Value) -> Result<Value, KrEvalError> {
    match (x, y) {
        (Value::I(a), Value::I(b)) => Ok(Value::E(single(unit(Request::Ratio32(a, b))))),
        (Value::J(a), Value::J(b)) => Ok(Value::F(double(unit(Request::Ratio64(a, b))))),
        (Value::E(a), Value::E(b)) => Ok(
            Value::E(single(unit(Request::Arith32(RealOp::Div, a, b)))),
        ),
        (Value::F(a), Value::F(b)) => Ok(
            Value::F(double(unit(Request::Arith64(RealOp::Div, a, b)))),
        ),
        _ => Err(KrEvalError::Type),
    }
}

/// A numeric or character scalar as the vector of its one item; any other
/// value as it is.
pub open spec fn promoted(x: Value) -> Value {
    match x {
        Value::I(a) => Value::Iv(seq![a]),
        Value::J(a) => Value::Jv(seq![a]),
        Value::E(a) => Value::Ev(seq![a]),
        Value::F(a) => Value::Fv(seq![a]),
        Value::C(a) => Value::Cv(seq![a]),
        other => other,
    }
}

/// Join: the items of the left operand, then those of the right, both
/// promoted first. The two must be vectors of one family, or two generic
/// lists; every other pair is a `Type` error.
pub open spec fn join_spec(x: Value, y: Value) -> Result<Value, KrEvalError> {
    match (promoted(x), promoted(y)) {
        (Value::Iv(a), Value::Iv(b)) => Ok(Value::Iv(a + b)),
        (Value::Jv(a), Value::Jv(b)) => Ok(Value::Jv(a + b)),
        (Value::Ev(a), Value::Ev(b)) => Ok(Value::Ev(a + b)),
        (Value::Fv(a), Value::Fv(b)) => Ok(Value::Fv(a + b)),
        (Value::Cv(a), Value::Cv(b)) => Ok(Value::Cv(a + b)),
        (Value::NN(a), Value::NN(b)) => Ok(Value::NN(a + b)),
        _ => Err(KrEvalError::Type),
    }
}

/// Assignment: binds the symbol on the left to the value on the right and
/// gives null. A left operand that is no symbol is an `Assign` error, and
/// binds nothing.
pub open spec fn assign_spec(env: Bindings, x: Value, y: Value) -> (Bindings, Result<
    Value,
    KrEvalError,
>) {
    match x {
        Value::S(name) => (env.insert(name, y), Ok(Value::Null)),
        _ => (env, Err(KrEvalError::Assign)),
    }
}

/// What an operator makes of its arguments: a `Rank` error unless there are
/// two of them. Only assignment changes the environment.
pub open spec fn operator_spec(unit: Unit, env: Bindings, op: Op, args: Seq<Value>) -> (
    Bindings,
    Result<Value, KrEvalError>,
) {
    if args.len() != 2 {
        (env, Err(KrEvalError::Rank))
    } else {
        match op {
            Op::Addition | Op::Subtraction | Op::Multiplication => (
                env,
                elementwise_spec(unit, op, args[0], args[1]),
            ),
            Op::Division => (env, division_spec(unit, args[0], args[1])),
            Op::Join => (env, join_spec(args[0], args[1])),
            Op::Assign => assign_spec(env, args[0], args[1]),
        }
    }
}

/// The length of a numeric vector; a value of another kind has none.
pub open spec fn vector_len(x: Value) -> Option<nat> {
    match x {
        Value::Iv(v) => Some(v.len()),
        Value::Jv(v) => Some(v.len()),
        Value::Ev(v) => Some(v.len()),
        Value::Fv(v) => Some(v.len()),
        _ => None,
    }
}

/// Whether two values are numeric vectors of one family.
pub open spec fn vectors_of_one_family(x: Value, y: Value) -> bool {
    (x is Iv && y is Iv) || (x is Jv && y is Jv) || (x is Ev && y is Ev) || (x is Fv && y is Fv)
}

/// Addition, subtraction and multiplication keep the length of their
/// operands: two vectors of one family and one length give a vector of that
/// family and length, and two vectors of one family and two lengths give a
/// `Length` error, never a shortened result.
pub proof fn lemma_elementwise_keeps_length(unit: Unit, op: Op, x: Value, y: Value)
    requires
        op == Op::Addition || op == Op::Subtraction || op == Op::Multiplication,
        vectors_of_one_family(x, y),
    ensures
        vector_len(x) == vector_len(y) ==> (elementwise_spec(unit, op, x, y) matches Ok(r)
            && vectors_of_one_family(x, r) && vector_len(r) == vector_len(x)),
        vector_len(x) != vector_len(y) ==> elementwise_spec(unit, op, x, y) == Err::<
            Value,
            KrEvalError,
        >(KrEvalError::Length),
{
}

fn int32(op: Op, x: i32, y: i32) -> (r: i32)
    ensures
        r == int32_spec(op, x, y),
{
    match op {
        Op::Addition => x.wrapping_add(y),
        Op::Subtraction => x.wrapping_sub(y),
        _ => x.wrapping_mul(y),
    }
}

fn int64(op: Op, x: i64, y: i64) -> (r: i64)
    ensures
        r == int64_spec(op, x, y),
{
    match op {
        Op::Addition => x.wrapping_add(y),
        Op::Subtraction => x.wrapping_sub(y),
        _ => x.wrapping_mul(y),
    }
}

fn unit_op(op: Op) -> (r: RealOp)
    ensures
        r == real_op(op),
{
    match op {
        Op::Addition => RealOp::Add,
        Op::Subtraction => RealOp::Sub,
        Op::Multiplication => RealOp::Mul,
        _ => RealOp::Div,
    }
}

fn real32<U: Fn(RealRequest) -> RealAnswer>(unit: &U, op: Op, x: Real, y: Real) -> (r: Real)
    requires
        unit_ok(*unit),
    ensures
        r == real32_spec(unit_model(*unit), op, x, y),
{
    ask_single(unit, RealRequest::Arith32(unit_op(op), x, y))
}

fn real64<U: Fn(RealRequest) -> RealAnswer>(unit: &U, op: Op, x: Float, y: Float) -> (r: Float)
    requires
        unit_ok(*unit),
    ensures
        r == real64_spec(unit_model(*unit), op, x, y),
{
    ask_double(unit, RealRequest::Arith64(unit_op(op), x, y))
}

fn each_int32(op: Op, a: &Vec<i32>, b: &Vec<i32>) -> (r: Vec<i32>)
    requires
        a@.len() == b@.len(),
    ensures
        r@ == Seq::new(a@.len(), |i: int| int32_spec(op, a@[i], b@[i])),
{
    let mut out: Vec<i32> = Vec::new();
    let mut i: usize = 0;
    while i < a.len()
        invariant
            a@.len() == b@.len(),
            i <= a.len(),
            out@.len() == i,
            forall|k: int| 0 <= k < i ==> out@[k] == int32_spec(op, a@[k], b@[k]),
        decreases a.len() - i,
    {
        out.push(int32(op, a[i], b[i]));
        i = i + 1;
    }
    out
}

fn each_int64(op: Op, a: &Vec<i64>, b: &Vec<i64>) -> (r: Vec<i64>)
    requires
        a@.len() == b@.len(),
    ensures
        r@ == Seq::new(a@.len(), |i: int| int64_spec(op, a@[i], b@[i])),
{
    let mut out: Vec<i64> = Vec::new();
    let mut i: usize = 0;
    while i < a.len()
        invariant
            a@.len() == b@.len(),
            i <= a.len(),
            out@.len() == i,
            forall|k: int| 0 <= k < i ==> out@[k] == int64_spec(op, a@[k], b@[k]),
        decreases a.len() - i,
    {
        out.push(int64(op, a[i], b[i]));
        i = i + 1;
    }
    out
}

fn each_real32<U: Fn(RealRequest) -> RealAnswer>(
    unit: &U,
    op: Op,
    a: &Vec<Real>,
    b: &Vec<Real>,
) -> (r: Vec<Real>)
    requires
        unit_ok(*unit),
        a@.len() == b@.len(),
    ensures
        r@ == Seq::new(a@.len(), |i: int| real32_spec(unit_model(*unit), op, a@[i], b@[i])),
{
    let ghost um = unit_model(*unit);
    let mut out: Vec<Real> = Vec::new();
    let mut i: usize = 0;
    while i < a.len()
        invariant
            unit_ok(*unit),
            um == unit_model(*unit),
            a@.len() == b@.len(),
            i <= a.len(),
            out@.len() == i,
            forall|k: int| 0 <= k < i ==> out@[k] == real32_spec(um, op, a@[k], b@[k]),
        decreases a.len() - i,
    {
        out.push(real32(unit, op, a[i], b[i]));
        i = i + 1;
    }
    out
}

fn each_real64<U: Fn(RealRequest) -> RealAnswer>(
    unit: &U,
    op: Op,
    a: &Vec<Float>,
    b: &Vec<Float>,
) -> (r: Vec<Float>)
    requires
        unit_ok(*unit),
        a@.len() == b@.len(),
    ensures
        r@ == Seq::new(a@.len(), |i: int| real64_spec(unit_model(*unit), op, a@[i], b@[i])),
{
    let ghost um = unit_model(*unit);
    let mut out: Vec<Float> = Vec::new();
    let mut i: usize = 0;
    while i < a.len()
        invariant
            unit_ok(*unit),
            um == unit_model(*unit),
            a@.len() == b@.len(),
            i <= a.len(),
            out@.len() == i,
            forall|k: int| 0 <= k < i ==> out@[k] == real64_spec(um, op, a@[k], b@[k]),
        decreases a.len() - i,
    {
        out.push(real64(unit, op, a[i], b[i]));
        i = i + 1;
    }
    out
}

/// Addition, subtraction or multiplication of two values.
pub fn elementwise<U: Fn(RealRequest) -> RealAnswer>(unit: &U, op: Op, x: &Kr, y: &Kr) -> (r:
    Result<Kr, KrEvalError>)
    requires
        unit_ok(*unit),
    ensures
        agrees(r, elementwise_spec(unit_model(*unit), op, x@, y@)),
{
    match (x, y) {
        (Kr::I(a), Kr::I(b)) => Ok(Kr::I(int32(op, *a, *b))),
        (Kr::J(a), Kr::J(b)) => Ok(Kr::J(int64(op, *a, *b))),
        (Kr::E(a), Kr::E(b)) => Ok(Kr::E(real32(unit, op, *a, *b))),
        (Kr::F(a), Kr::F(b)) => Ok(Kr::F(real64(unit, op, *a, *b))),
        (Kr::Iv(a), Kr::Iv(b)) => {
            if a.len() == b.len() {
                Ok(Kr::Iv(each_int32(op, a, b)))
            } else {
                Err(KrEvalError::Length)
            }
        },
        (Kr::Jv(a), Kr::Jv(b)) => {
            if a.len() == b.len() {
                Ok(Kr::Jv(each_int64(op, a, b)))
            } else {
                Err(KrEvalError::Length)
            }
        },
        (Kr::Ev(a), Kr::Ev(b)) => {
            if a.len() == b.len() {
                Ok(Kr::Ev(each_real32(unit, op, a, b)))
            } else {
                Err(KrEvalError::Length)
            }
        },
        (Kr::Fv(a), Kr::Fv(b)) => {
            if a.len() == b.len() {
                Ok(Kr::Fv(each_real64(unit, op, a, b)))
            } else {
                Err(KrEvalError::Length)
            }
        },
        (_, _) => Err(KrEvalError::Type),
    }
}

/// Addition of the two arguments.
pub fn kr_addition<U: Fn(RealRequest) -> RealAnswer>(e: Env, args: &[Kr], unit: &U) -> (r: (
    Env,
    Result<Kr, KrEvalError>,
))
    requires
        unit_ok(*unit),
        args@.len() == 2,
    ensures
        r.0 == e,
        agrees(r.1, elementwise_spec(unit_model(*unit), Op::Addition, args@[0]@, args@[1]@)),
{
    let res = elementwise(unit, Op::Addition, &args[0], &args[1]);
    (e, res)
}

/// Subtraction of the second argument from the first.
pub fn kr_subtraction<U: Fn(RealRequest) -> RealAnswer>(e: Env, args: &[Kr], unit: &U) -> (r: (
    Env,
    Result<Kr, KrEvalError>,
))
    requires
        unit_ok(*unit),
        args@.len() == 2,
    ensures
        r.0 == e,
        agrees(r.1, elementwise_spec(unit_model(*unit), Op::Subtraction, args@[0]@, args@[1]@)),
{
    let res = elementwise(unit, Op::Subtraction, &args[0], &args[1]);
    (e, res)
}

/// Multiplication of the two arguments.
pub fn kr_multiplication<U: Fn(RealRequest) -> RealAnswer>(e: Env, args: &[Kr], unit: &U) -> (r:
    (Env, Result<Kr, KrEvalError>))
    requires
        unit_ok(*unit),
        args@.len() == 2,
    ensures
        r.0 == e,
        agrees(
            r.1,
            elementwise_spec(unit_model(*unit), Op::Multiplication, args@[0]@, args@[1]@),
        ),
{
    let res = elementwise(unit, Op::Multiplication, &args[0], &args[1]);
    (e, res)
}

/// True division of the first argument by the second.
pub fn kr_division<U: Fn(RealRequest) -> RealAnswer>(e: Env, args: &[Kr], unit: &U) -> (r: (
    Env,
    Result<Kr, KrEvalError>,
))
    requires
        unit_ok(*unit),
        args@.len() == 2,
    ensures
        r.0 == e,
        agrees(r.1, division_spec(unit_model(*unit), args@[0]@, args@[1]@)),
{
    let res = match (&args[0], &args[1]) {
        (Kr::I(a), Kr::I(b)) => Ok(Kr::E(ask_single(unit, RealRequest::Ratio32(*a, *b)))),
        (Kr::J(a), Kr::J(b)) => Ok(Kr::F(ask_double(unit, RealRequest::Ratio64(*a, *b)))),
        (Kr::E(a), Kr::E(b)) => Ok(
            Kr::E(ask_single(unit, RealRequest::Arith32(RealOp::Div, *a, *b))),
        ),
        (Kr::F(a), Kr::F(b)) => Ok(
            Kr::F(ask_double(unit, RealRequest::Arith64(RealOp::Div, *a, *b))),
        ),
        (_, _) => Err(KrEvalError::Type),
    };
    (e, res)
}

fn single_item<T: Copy>(a: T) -> (r: Vec<T>)
    ensures
        r@ == seq![a],
{
    let r = vec![a];
    r
}

/// A numeric or character scalar as the vector of its one item.
pub fn atom_to_vec(x: &Kr) -> (r: Kr)
    ensures
        r@ == promoted(x@),
{
    match x {
        Kr::I(a) => Kr::Iv(single_item(*a)),
        Kr::J(a) => Kr::Jv(single_item(*a)),
        Kr::E(a) => Kr::Ev(single_item(*a)),
        Kr::F(a) => Kr::Fv(single_item(*a)),
        Kr::C(a) => Kr::Cv(single_item(*a)),
        other => other.clone(),
    }
}

fn concat<T: Copy>(mut a: Vec<T>, b: &Vec<T>) -> (r: Vec<T>)
    ensures
        r@ == a@ + b@,
{
    let ghost start = a@;
    let mut i: usize = 0;
    while i < b.len()
        invariant
            i <= b.len(),
            a@ == start + b@.take(i as int),
        decreases b.len() - i,
    {
        a.push(b[i]);
        i = i + 1;
    }
    a
}

fn concat_lists(mut a: Vec<Kr>, b: &Vec<Kr>) -> (r: Vec<Kr>)
    ensures
        values(r@) == values(a@) + values(b@),
{
    let ghost start = values(a@);
    let mut i: usize = 0;
    while i < b.len()
        invariant
            i <= b.len(),
            values(a@) == start + values(b@).take(i as int),
        decreases b.len() - i,
    {
        let item = b[i].clone();
        proof {
            lemma_values_push(a@, item);
        }
        a.push(item);
        i = i + 1;
    }
    a
}

/// Join of the two arguments.
pub fn kr_join(e: Env, args: &[Kr]) -> (r: (Env, Result<Kr, KrEvalError>))
    requires
        args@.len() == 2,
    ensures
        r.0 == e,
        agrees(r.1, join_spec(args@[0]@, args@[1]@)),
{
    let x = atom_to_vec(&args[0]);
    let y = atom_to_vec(&args[1]);
    let res = match (x, y) {
        (Kr::Iv(x), Kr::Iv(y)) => Ok(Kr::Iv(concat(x, &y))),
        (Kr::Jv(x), Kr::Jv(y)) => Ok(Kr::Jv(concat(x, &y))),
        (Kr::Ev(x), Kr::Ev(y)) => Ok(Kr::Ev(concat(x, &y))),
        (Kr::Fv(x), Kr::Fv(y)) => Ok(Kr::Fv(concat(x, &y))),
        (Kr::Cv(x), Kr::Cv(y)) => Ok(Kr::Cv(concat(x, &y))),
        (Kr::NN(x), Kr::NN(y)) => Ok(Kr::NN(concat_lists(x, &y))),
        (_, _) => Err(KrEvalError::Type),
    };
    (e, res)
}

/// Assignment of the second argument to the symbol that is the first.
pub fn kr_assign(e: Env, args: &[Kr]) -> (r: (Env, Result<Kr, KrEvalError>))
    requires
        e.wf(),
        args@.len() == 2,
    ensures
        r.0.wf(),
        r.0.options() == e.options(),
        r.0@ == assign_spec(e@, args@[0]@, args@[1]@).0,
        agrees(r.1, assign_spec(e@, args@[0]@, args@[1]@).1),
{
    let mut e = e;
    match &args[0] {
        Kr::S(k) => {
            e.insert(k.clone(), args[1].clone());
        },
        _ => {
            return (e, Err(KrEvalError::Assign));
        },
    }
    (e, Ok(Kr::Null))
}

impl Operator {
    /// The operator as a value.
    pub fn new(op: Op) -> (r: Self)
        ensures
            r@ == op,
    {
        Operator { op }
    }

    /// Which operator this is.
    pub fn op(&self) -> (r: Op)
        ensures
            r == self@,
    {
        self.op
    }

    /// The number of arguments that every operator takes.
    pub fn rank(&self) -> (r: usize)
        ensures
            r == 2,
    {
        2
    }

    /// Applies the operator to its evaluated arguments.
    pub fn apply<U: Fn(RealRequest) -> RealAnswer>(&self, env: Env, args: &[Kr], unit: &U) -> (r:
        (Env, Result<Kr, KrEvalError>))
        requires
            unit_ok(*unit),
            env.wf(),
        ensures
            r.0.wf(),
            r.0.options() == env.options(),
            r.0@ == operator_spec(unit_model(*unit), env@, self@, values(args@)).0,
            agrees(r.1, operator_spec(unit_model(*unit), env@, self@, values(args@)).1),
    {
        if args.len() != self.rank() {
            return (env, Err(KrEvalError::Rank));
        }
        match self.op {
            Op::Addition => kr_addition(env, args, unit),
            Op::Subtraction => kr_subtraction(env, args, unit),
            Op::Multiplication => kr_multiplication(env, args, unit),
            Op::Division => kr_division(env, args, unit),
            Op::Assign => kr_assign(env, args),
            Op::Join => kr_join(env, args),
        }
    }

    /// The character that the operator is written with.
    pub fn to_string(&self) -> (r: String)
        ensures
            r@ == op_text(self@),
    {
        match self.op {
            Op::Addition => "+".to_string(),
            Op::Subtraction => "-".to_string(),
            Op::Multiplication => "*".to_string(),
            Op::Division => "%".to_string(),
            Op::Assign => ":".to_string(),
            Op::Join => ",".to_string(),
        }
    }
}

} // verus!
