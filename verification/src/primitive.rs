use vstd::prelude::*;
use crate::error::KrEvalError;
use crate::init::{Bindings, Env, agrees, lookup};
use crate::kr::{Kr, Value, values};
use crate::reals::{Float, Real};
use crate::token::SPACE;

verus! {

/// The named built-ins.
#[derive(Clone, Copy, Debug, PartialEq, Eq, Structural)]
pub enum Prim {
    First,
    Last,
    Til,
    Enlist,
    Value,
}

/// A named built-in as a value; its text and its rank follow from `prim`.
#[derive(Clone, Copy, Debug, PartialEq, Eq, Structural)]
pub struct Primitive {
    prim: Prim,
}

impl View for Primitive {
    type V = Prim;

    closed spec fn view(&self) -> Prim {
        self.prim
    }
}

/// The name that each primitive is written with.
pub open spec fn prim_text(prim: Prim) -> Seq<char> {
    match prim {
        Prim::First => "first"@,
        Prim::Last => "last"@,
        Prim::Til => "til"@,
        Prim::Enlist => "enlist"@,
        Prim::Value => "value"@,
    }
}

/// The number of arguments that a primitive takes; `enlist` takes any number.
pub open spec fn prim_rank(prim: Prim) -> Option<nat> {
    match prim {
        Prim::Enlist => None,
        _ => Some(1),
    }
}

/// Whether a value is a numeric or character scalar.
pub open spec fn is_atom(x: Value) -> bool {
    x is I || x is J || x is E || x is F || x is C
}

/// The first item of a run, or `default` for an empty run.
pub open spec fn first_or<T>(v: Seq<T>, default: T) -> T {
    if v.len() > 0 {
        v.first()
    } else {
        default
    }
}

/// The last item of a run, or `default` for an empty run.
pub open spec fn last_or<T>(v: Seq<T>, default: T) -> T {
    if v.len() > 0 {
        v.last()
    } else {
        default
    }
}

/// `first`: the first item of a vector or list. An empty vector gives the
/// zero of its family, an empty character vector a space, an empty list
/// null. A numeric or character scalar is its own first item. Every other
/// value is a `Type` error.
pub open spec fn first_spec(x: Value) -> Result<Value, KrEvalError> {
    match x {
        Value::Iv(v) => Ok(Value::I(first_or(v, 0))),
        Value::Jv(v) => Ok(Value::J(first_or(v, 0))),
        Value::Ev(v) => Ok(Value::E(first_or(v, Real(0)))),
        Value::Fv(v) => Ok(Value::F(first_or(v, Float(0)))),
        Value::Cv(v) => Ok(Value::C(first_or(v, SPACE))),
        Value::NN(v) => Ok(first_or(v, Value::Null)),
        _ => {
            if is_atom(x) {
                Ok(x)
            } else {
                Err(KrEvalError::Type)
            }
        },
    }
}

/// `last`: as `first`, from the other end.
pub open spec fn last_spec(x: Value) -> Result<Value, KrEvalError> {
    match x {
        Value::Iv(v) => Ok(Value::I(last_or(v, 0))),
        Value::Jv(v) => Ok(Value::J(last_or(v, 0))),
        Value::Ev(v) => Ok(Value::E(last_or(v, Real(0)))),
        Value::Fv(v) => Ok(Value::F(last_or(v, Float(0)))),
        Value::Cv(v) => Ok(Value::C(last_or(v, SPACE))),
        Value::NN(v) => Ok(last_or(v, Value::Null)),
        _ => {
            if is_atom(x) {
                Ok(x)
            } else {
                Err(KrEvalError::Type)
            }
        },
    }
}

/// The 64-bit integers from zero up to, and without, `n`.
pub open spec fn range(n: int) -> Seq<i64> {
    Seq::new(
        if n > 0 {
            n as nat
        } else {
            0
        },
        |i: int| i as i64,
    )
}

/// `til`: the range below a 64-bit integer; any other value is a `Type`
/// error.
pub open spec fn til_spec(x: Value) -> Result<Value, KrEvalError> {
    match x {
        Value::J(n) => Ok(Value::Jv(range(n as int))),
        _ => Err(KrEvalError::Type),
    }
}

/// `enlist`: where there is an argument and all are scalars of one numeric
/// or character family, the vector of that family that holds them; else the
/// generic list of the arguments.
pub open spec fn enlist_spec(args: Seq<Value>) -> Value {
    if args.len() > 0 && (forall|i: int| 0 <= i < args.len() ==> args[i] is I) {
        Value::Iv(Seq::new(args.len(), |i: int| args[i]->I_0))
    } else if args.len() > 0 && (forall|i: int| 0 <= i < args.len() ==> args[i] is J) {
        Value::Jv(Seq::new(args.len(), |i: int| args[i]->J_0))
    } else if args.len() > 0 && (forall|i: int| 0 <= i < args.len() ==> args[i] is E) {
        Value::Ev(Seq::new(args.len(), |i: int| args[i]->E_0))
    } else if args.len() > 0 && (forall|i: int| 0 <= i < args.len() ==> args[i] is F) {
        Value::Fv(Seq::new(args.len(), |i: int| args[i]->F_0))
    } else if args.len() > 0 && (forall|i: int| 0 <= i < args.len() ==> args[i] is C) {
        Value::Cv(Seq::new(args.len(), |i: int| args[i]->C_0))
    } else {
        Value::NN(args)
    }
}

/// What a primitive makes of its arguments: a `Rank` error where it takes
/// one argument and there is another number of them. No primitive changes
/// the environment.
pub open spec fn primitive_spec(env: Bindings, prim: Prim, args: Seq<Value>) -> Result<
    Value,
    KrEvalError,
> {
    if prim_rank(prim) is Some && args.len() != prim_rank(prim)->Some_0 {
        Err(KrEvalError::Rank)
    } else {
        match prim {
            Prim::First => first_spec(args[0]),
            Prim::Last => last_spec(args[0]),
            Prim::Til => til_spec(args[0]),
            Prim::Enlist => Ok(enlist_spec(args)),
            Prim::Value => lookup(env, args[0]),
        }
    }
}

/// Whether two values are scalars of one numeric or character family.
pub open spec fn scalars_of_one_family(x: Value, y: Value) -> bool {
    (x is I && y is I) || (x is J && y is J) || (x is E && y is E) || (x is F && y is F) || (x is C
        && y is C)
}

/// Whether there is an argument, and all are scalars of one family.
pub open spec fn uniform(args: Seq<Value>) -> bool {
    args.len() > 0 && forall|i: int| 0 <= i < args.len() ==> scalars_of_one_family(args[0], args[i])
}

/// The scalar at position `i` of a vector, as a value.
pub open spec fn item(x: Value, i: int) -> Value {
    match x {
        Value::Iv(v) => Value::I(v[i]),
        Value::Jv(v) => Value::J(v[i]),
        Value::Ev(v) => Value::E(v[i]),
        Value::Fv(v) => Value::F(v[i]),
        Value::Cv(v) => Value::C(v[i]),
        _ => Value::Null,
    }
}

/// The number of items of a vector of any of the five families.
pub open spec fn item_count(x: Value) -> Option<nat> {
    match x {
        Value::Iv(v) => Some(v.len()),
        Value::Jv(v) => Some(v.len()),
        Value::Ev(v) => Some(v.len()),
        Value::Fv(v) => Some(v.len()),
        Value::Cv(v) => Some(v.len()),
        _ => None,
    }
}

/// `enlist` of one or more scalars of one family is a vector, never a
/// generic list: it holds the arguments in their order. `enlist` of no
/// argument, or of arguments of more than one kind, is the generic list of
/// the arguments.
pub proof fn lemma_enlist_collapses(args: Seq<Value>)
    ensures
        uniform(args) ==> {
            &&& !(enlist_spec(args) is NN)
            &&& item_count(enlist_spec(args)) == Some(args.len())
            &&& forall|i: int| 0 <= i < args.len() ==> item(enlist_spec(args), i) == args[i]
        },
        !uniform(args) ==> enlist_spec(args) == Value::NN(args),
{
    if uniform(args) {
        if args[0] is I {
            assert forall|i: int| 0 <= i < args.len() implies args[i] is I by {
                assert(scalars_of_one_family(args[0], args[i]));
            }
        } else if args[0] is J {
            assert forall|i: int| 0 <= i < args.len() implies args[i] is J by {
                assert(scalars_of_one_family(args[0], args[i]));
            }
        } else if args[0] is E {
            assert forall|i: int| 0 <= i < args.len() implies args[i] is E by {
                assert(scalars_of_one_family(args[0], args[i]));
            }
        } else if args[0] is F {
            assert forall|i: int| 0 <= i < args.len() implies args[i] is F by {
                assert(scalars_of_one_family(args[0], args[i]));
            }
        } else {
            assert forall|i: int| 0 <= i < args.len() implies args[i] is C by {
                assert(scalars_of_one_family(args[0], args[i]));
            }
        }
    } else if args.len() > 0 {
    }
}

fn first_item<T: Copy>(list: &Vec<T>, default: T) -> (r: T)
    ensures
        r == first_or(list@, default),
{
    if list.len() > 0 {
        list[0]
    } else {
        default
    }
}

fn last_item<T: Copy>(list: &Vec<T>, default: T) -> (r: T)
    ensures
        r == last_or(list@, default),
{
    if list.len() > 0 {
        list[list.len() - 1]
    } else {
        default
    }
}

/// The first item of a vector or list.
pub fn kr_first(x: &Kr) -> (r: Result<Kr, KrEvalError>)
    ensures
        agrees(r, first_spec(x@)),
{
    match x {
        Kr::Iv(list) => Ok(Kr::I(first_item(list, 0))),
        Kr::Jv(list) => Ok(Kr::J(first_item(list, 0))),
        Kr::Ev(list) => Ok(Kr::E(first_item(list, Real(0)))),
        Kr::Fv(list) => Ok(Kr::F(first_item(list, Float(0)))),
        Kr::Cv(list) => Ok(Kr::C(first_item(list, SPACE))),
        Kr::NN(list) => {
            if list.len() > 0 {
                assert(values(list@).first() == list@[0]@);
                Ok(list[0].clone())
            } else {
                Ok(Kr::Null)
            }
        },
        Kr::I(_) | Kr::J(_) | Kr::E(_) | Kr::F(_) | Kr::C(_) => Ok(x.clone()),
        _ => Err(KrEvalError::Type),
    }
}

/// The last item of a vector or list.
pub fn kr_last(x: &Kr) -> (r: Result<Kr, KrEvalError>)
    ensures
        agrees(r, last_spec(x@)),
{
    match x {
        Kr::Iv(list) => Ok(Kr::I(last_item(list, 0))),
        Kr::Jv(list) => Ok(Kr::J(last_item(list, 0))),
        Kr::Ev(list) => Ok(Kr::E(last_item(list, Real(0)))),
        Kr::Fv(list) => Ok(Kr::F(last_item(list, Float(0)))),
        Kr::Cv(list) => Ok(Kr::C(last_item(list, SPACE))),
        Kr::NN(list) => {
            if list.len() > 0 {
                assert(values(list@).last() == list@[list.len() - 1]@);
                Ok(list[list.len() - 1].clone())
            } else {
                Ok(Kr::Null)
            }
        },
        Kr::I(_) | Kr::J(_) | Kr::E(_) | Kr::F(_) | Kr::C(_) => Ok(x.clone()),
        _ => Err(KrEvalError::Type),
    }
}

/// The range below a 64-bit integer.
pub fn kr_til(x: &Kr) -> (r: Result<Kr, KrEvalError>)
    ensures
        agrees(r, til_spec(x@)),
{
    match x {
        Kr::J(n) => {
            let mut out: Vec<i64> = Vec::new();
            let mut i: i64 = 0;
            while i < *n
                invariant
                    0 <= i,
                    i <= *n || i == 0,
                    out@.len() == i,
                    forall|k: int| 0 <= k < i ==> out@[k] == k as i64,
                decreases *n - i,
            {
                out.push(i);
                i = i + 1;
            }
            assert(out@ =~= range(*n as int));
            Ok(Kr::Jv(out))
        },
        _ => Err(KrEvalError::Type),
    }
}

/// The 32-bit integers of the arguments, where every argument is one.
fn all_ints(args: &[Kr]) -> (r: Option<Vec<i32>>)
    ensures
        r is Some <==> forall|i: int|
            0 <= i < values(args@).len() ==> values(args@)[i] is I,
        r matches Some(v) ==> v@ == Seq::new(
            values(args@).len(),
            |i: int| values(args@)[i]->I_0,
        ),
{
    let ghost vs = values(args@);
    let mut out: Vec<i32> = Vec::new();
    let mut i: usize = 0;
    while i < args.len()
        invariant
            vs == values(args@),
            i <= args@.len(),
            out@.len() == i,
            forall|k: int| 0 <= k < i ==> (#[trigger] vs[k]) is I && out@[k] == vs[k]->I_0,
        decreases args@.len() - i,
    {
        assert(vs[i as int] == args@[i as int]@);
        match &args[i] {
            Kr::I(a) => out.push(*a),
            _ => {
                return None;
            },
        }
        i = i + 1;
    }
    assert(out@ =~= Seq::new(vs.len(), |i: int| vs[i]->I_0));
    Some(out)
}

/// The 64-bit integers of the arguments, where every argument is one.
fn all_longs(args: &[Kr]) -> (r: Option<Vec<i64>>)
    ensures
        r is Some <==> forall|i: int|
            0 <= i < values(args@).len() ==> values(args@)[i] is J,
        r matches Some(v) ==> v@ == Seq::new(
            values(args@).len(),
            |i: int| values(args@)[i]->J_0,
        ),
{
    let ghost vs = values(args@);
    let mut out: Vec<i64> = Vec::new();
    let mut i: usize = 0;
    while i < args.len()
        invariant
            vs == values(args@),
            i <= args@.len(),
            out@.len() == i,
            forall|k: int| 0 <= k < i ==> (#[trigger] vs[k]) is J && out@[k] == vs[k]->J_0,
        decreases args@.len() - i,
    {
        assert(vs[i as int] == args@[i as int]@);
        match &args[i] {
            Kr::J(a) => out.push(*a),
            _ => {
                return None;
            },
        }
        i = i + 1;
    }
    assert(out@ =~= Seq::new(vs.len(), |i: int| vs[i]->J_0));
    Some(out)
}

/// The 32-bit reals of the arguments, where every argument is one.
fn all_reals(args: &[Kr]) -> (r: Option<Vec<Real>>)
    ensures
        r is Some <==> forall|i: int|
            0 <= i < values(args@).len() ==> values(args@)[i] is E,
        r matches Some(v) ==> v@ == Seq::new(
            values(args@).len(),
            |i: int| values(args@)[i]->E_0,
        ),
{
    let ghost vs = values(args@);
    let mut out: Vec<Real> = Vec::new();
    let mut i: usize = 0;
    while i < args.len()
        invariant
            vs == values(args@),
            i <= args@.len(),
            out@.len() == i,
            forall|k: int| 0 <= k < i ==> (#[trigger] vs[k]) is E && out@[k] == vs[k]->E_0,
        decreases args@.len() - i,
    {
        assert(vs[i as int] == args@[i as int]@);
        match &args[i] {
            Kr::E(a) => out.push(*a),
            _ => {
                return None;
            },
        }
        i = i + 1;
    }
    assert(out@ =~= Seq::new(vs.len(), |i: int| vs[i]->E_0));
    Some(out)
}

/// The 64-bit floats of the arguments, where every argument is one.
fn all_floats(args: &[Kr]) -> (r: Option<Vec<Float>>)
    ensures
        r is Some <==> forall|i: int|
            0 <= i < values(args@).len() ==> values(args@)[i] is F,
        r matches Some(v) ==> v@ == Seq::new(
            values(args@).len(),
            |i: int| values(args@)[i]->F_0,
        ),
{
    let ghost vs = values(args@);
    let mut out: Vec<Float> = Vec::new();
    let mut i: usize = 0;
    while i < args.len()
        invariant
            vs == values(args@),
            i <= args@.len(),
            out@.len() == i,
            forall|k: int| 0 <= k < i ==> (#[trigger] vs[k]) is F && out@[k] == vs[k]->F_0,
        decreases args@.len() - i,
    {
        assert(vs[i as int] == args@[i as int]@);
        match &args[i] {
            Kr::F(a) => out.push(*a),
            _ => {
                return None;
            },
        }
        i = i + 1;
    }
    assert(out@ =~= Seq::new(vs.len(), |i: int| vs[i]->F_0));
    Some(out)
}

/// The characters of the arguments, where every argument is one.
fn all_chars(args: &[Kr]) -> (r: Option<Vec<u8>>)
    ensures
        r is Some <==> forall|i: int|
            0 <= i < values(args@).len() ==> values(args@)[i] is C,
        r matches Some(v) ==> v@ == Seq::new(
            values(args@).len(),
            |i: int| values(args@)[i]->C_0,
        ),
{
    let ghost vs = values(args@);
    let mut out: Vec<u8> = Vec::new();
    let mut i: usize = 0;
    while i < args.len()
        invariant
            vs == values(args@),
            i <= args@.len(),
            out@.len() == i,
            forall|k: int| 0 <= k < i ==> (#[trigger] vs[k]) is C && out@[k] == vs[k]->C_0,
        decreases args@.len() - i,
    {
        assert(vs[i as int] == args@[i as int]@);
        match &args[i] {
            Kr::C(a) => out.push(*a),
            _ => {
                return None;
            },
        }
        i = i + 1;
    }
    assert(out@ =~= Seq::new(vs.len(), |i: int| vs[i]->C_0));
    Some(out)
}

fn copies(args: &[Kr]) -> (r: Vec<Kr>)
    ensures
        values(r@) == values(args@),
{
    let mut out: Vec<Kr> = Vec::new();
    let mut i: usize = 0;
    while i < args.len()
        invariant
            i <= args@.len(),
            out@.len() == i,
            forall|k: int| 0 <= k < i ==> out@[k]@ == args@[k]@,
        decreases args@.len() - i,
    {
        out.push(args[i].clone());
        i = i + 1;
    }
    assert(values(out@) =~= values(args@));
    out
}

/// The arguments packed into a vector, or into a generic list.
pub fn kr_enlist(e: Env, args: &[Kr]) -> (r: (Env, Result<Kr, KrEvalError>))
    ensures
        r.0 == e,
        agrees(r.1, Ok(enlist_spec(values(args@)))),
{
    if args.len() == 0 {
        return (e, Ok(Kr::NN(copies(args))));
    }
    if let Some(v) = all_ints(args) {
        return (e, Ok(Kr::Iv(v)));
    }
    if let Some(v) = all_longs(args) {
        return (e, Ok(Kr::Jv(v)));
    }
    if let Some(v) = all_reals(args) {
        return (e, Ok(Kr::Ev(v)));
    }
    if let Some(v) = all_floats(args) {
        return (e, Ok(Kr::Fv(v)));
    }
    if let Some(v) = all_chars(args) {
        return (e, Ok(Kr::Cv(v)));
    }
    (e, Ok(Kr::NN(copies(args))))
}

/// The value bound to the symbol that is the first argument.
pub fn kr_value(e: Env, v: &[Kr]) -> (r: (Env, Result<Kr, KrEvalError>))
    requires
        e.wf(),
        v@.len() >= 1,
    ensures
        r.0 == e,
        agrees(r.1, lookup(e@, v@[0]@)),
{
    let r = e.val(&v[0]);
    (e, r)
}

impl Primitive {
    /// The primitive as a value.
    pub fn new(prim: Prim) -> (r: Self)
        ensures
            r@ == prim,
    {
        Primitive { prim }
    }

    /// Which primitive this is.
    pub fn prim(&self) -> (r: Prim)
        ensures
            r == self@,
    {
        self.prim
    }

    /// The number of arguments that the primitive takes, if it is fixed.
    pub fn rank(&self) -> (r: Option<usize>)
        ensures
            r is Some == prim_rank(self@) is Some,
            r matches Some(n) ==> prim_rank(self@) == Some(n as nat),
    {
        match self.prim {
            Prim::Enlist => None,
            _ => Some(1),
        }
    }

    /// Applies the primitive to its evaluated arguments.
    pub fn apply(&self, env: Env, args: &[Kr]) -> (r: (Env, Result<Kr, KrEvalError>))
        requires
            env.wf(),
        ensures
            r.0 == env,
            agrees(r.1, primitive_spec(env@, self@, values(args@))),
    {
        match self.prim {
            Prim::Enlist => kr_enlist(env, args),
            _ => {
                if args.len() != 1 {
                    return (env, Err(KrEvalError::Rank));
                }
                match self.prim {
                    Prim::First => (env, kr_first(&args[0])),
                    Prim::Last => (env, kr_last(&args[0])),
                    Prim::Til => (env, kr_til(&args[0])),
                    _ => kr_value(env, args),
                }
            },
        }
    }

    /// The name that the primitive is written with.
    pub fn display(&self) -> (r: String)
        ensures
            r@ == prim_text(self@),
    {
        self.to_string()
    }

    /// The name that the primitive is written with.
    pub fn to_string(&self) -> (r: String)
        ensures
            r@ == prim_text(self@),
    {
        match self.prim {
            Prim::First => "first".to_string(),
            Prim::Last => "last".to_string(),
            Prim::Til => "til".to_string(),
            Prim::Enlist => "enlist".to_string(),
            Prim::Value => "value".to_string(),
        }
    }
}

} // verus!
