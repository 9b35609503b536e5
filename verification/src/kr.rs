use vstd::prelude::*;
use vstd::string::StringExecFns;
use crate::decimal::{decimal, render_i64};
use crate::error::KrEvalError;
use crate::init::{Bindings, Env, agrees, lookup};
use crate::operator::{Op, Operator, op_text, operator_spec};
use crate::primitive::{Prim, Primitive, prim_text, primitive_spec};
use crate::reals::{
    Float, Real, RealAnswer, RealRequest, Request, Unit, ask_text, text_of, unit_model, unit_ok,
};
use crate::text::{Text, lossy_text};

verus! {

/// Every runtime datum, and every node of a parsed expression. A generic
/// list is both a list of values and, where it is evaluated, an application:
/// its first item is applied to the rest.
#[derive(Debug, PartialEq)]
pub enum Kr {
    /// A 32-bit integer.
    I(i32),
    Iv(Vec<i32>),
    /// A 64-bit integer, a long.
    J(i64),
    Jv(Vec<i64>),
    /// A 32-bit real.
    E(Real),
    Ev(Vec<Real>),
    /// A 64-bit float.
    F(Float),
    Fv(Vec<Float>),
    /// A character, one byte.
    C(u8),
    Cv(Vec<u8>),
    /// A symbol.
    S(Text),
    /// An operator.
    Op(Operator),
    /// A primitive.
    Prim(Primitive),
    /// Null.
    Null,
    /// A generic list.
    NN(Vec<Kr>),
}

/// A `Kr` as a mathematical value.
pub enum Value {
    I(i32),
    Iv(Seq<i32>),
    J(i64),
    Jv(Seq<i64>),
    E(Real),
    Ev(Seq<Real>),
    F(Float),
    Fv(Seq<Float>),
    C(u8),
    Cv(Seq<u8>),
    S(Seq<u8>),
    Op(Op),
    Prim(Prim),
    Null,
    NN(Seq<Value>),
}

impl View for Kr {
    type V = Value;

    open spec fn view(&self) -> Value
        decreases self,
    {
        match self {
            Kr::I(x) => Value::I(*x),
            Kr::Iv(v) => Value::Iv(v@),
            Kr::J(x) => Value::J(*x),
            Kr::Jv(v) => Value::Jv(v@),
            Kr::E(x) => Value::E(*x),
            Kr::Ev(v) => Value::Ev(v@),
            Kr::F(x) => Value::F(*x),
            Kr::Fv(v) => Value::Fv(v@),
            Kr::C(c) => Value::C(*c),
            Kr::Cv(v) => Value::Cv(v@),
            Kr::S(t) => Value::S(t@),
            Kr::Op(op) => Value::Op(op@),
            Kr::Prim(p) => Value::Prim(p@),
            Kr::Null => Value::Null,
            Kr::NN(v) => Value::NN(values(v@)),
        }
    }
}

/// The values of a run of items, one for one.
pub open spec fn values(items: Seq<Kr>) -> Seq<Value>
    decreases items,
{
    Seq::new(items.len(), |i: int| if 0 <= i < items.len() { items[i]@ } else { Value::Null })
}

/// The values of a run with one more item are those of the run, then that of
/// the item.
pub proof fn lemma_values_push(items: Seq<Kr>, last: Kr)
    ensures
        values(items.push(last)) == values(items).push(last@),
{
}

impl Clone for Kr {
    fn clone(&self) -> (r: Self)
        ensures
            r@ == self@,
        decreases self,
    {
        match self {
            Kr::I(x) => Kr::I(*x),
            Kr::Iv(v) => Kr::Iv(v.clone()),
            Kr::J(x) => Kr::J(*x),
            Kr::Jv(v) => Kr::Jv(v.clone()),
            Kr::E(x) => Kr::E(*x),
            Kr::Ev(v) => Kr::Ev(v.clone()),
            Kr::F(x) => Kr::F(*x),
            Kr::Fv(v) => Kr::Fv(v.clone()),
            Kr::C(c) => Kr::C(*c),
            Kr::Cv(v) => Kr::Cv(v.clone()),
            Kr::S(t) => Kr::S(t.clone()),
            Kr::Op(op) => Kr::Op(*op),
            Kr::Prim(p) => Kr::Prim(*p),
            Kr::Null => Kr::Null,
            Kr::NN(v) => {
                let mut out: Vec<Kr> = Vec::new();
                let mut i: usize = 0;
                while i < v.len()
                    invariant
                        self is NN && self->NN_0 == *v,
                        i <= v.len(),
                        out.len() == i,
                        forall|j: int| 0 <= j < i ==> out@[j]@ == v@[j]@,
                    decreases v.len() - i,
                {
                    out.push(v[i].clone());
                    i = i + 1;
                }
                assert(values(out@) =~= values(v@));
                Kr::NN(out)
            },
        }
    }
}

/// The parts in their order, with `delim` between each two of them.
pub open spec fn joined(parts: Seq<Seq<char>>, delim: Seq<char>) -> Seq<char>
    decreases parts.len(),
{
    if parts.len() == 0 {
        Seq::empty()
    } else if parts.len() == 1 {
        parts[0]
    } else {
        joined(parts.drop_last(), delim) + delim + parts.last()
    }
}

/// The texts of a run of strings, one for one.
pub open spec fn texts(parts: Seq<String>) -> Seq<Seq<char>> {
    parts.map_values(|s: String| s@)
}

/// The rendered form of a value. An integer is written in decimal, a real as
/// the unit writes it; the items of a vector stand with one space between
/// them; characters stand between double quotes; a symbol follows a
/// backtick; null is `(::)`; a callable is its own text; the items of a
/// generic list stand between square brackets, parted by semicolons.
pub open spec fn print_spec(unit: Unit, v: Value) -> Seq<char>
    decreases v,
{
    match v {
        Value::I(n) => decimal(n as int),
        Value::J(n) => decimal(n as int),
        Value::E(x) => text_of(unit(Request::Show32(x))),
        Value::F(x) => text_of(unit(Request::Show64(x))),
        Value::C(c) => "\""@ + lossy_text(seq![c]) + "\""@,
        Value::S(name) => "`"@ + lossy_text(name),
        Value::Null => "(::)"@,
        Value::Iv(items) => joined(items.map_values(|n: i32| decimal(n as int)), " "@),
        Value::Jv(items) => joined(items.map_values(|n: i64| decimal(n as int)), " "@),
        Value::Ev(items) => joined(
            items.map_values(|x: Real| text_of(unit(Request::Show32(x)))),
            " "@,
        ),
        Value::Fv(items) => joined(
            items.map_values(|x: Float| text_of(unit(Request::Show64(x)))),
            " "@,
        ),
        Value::Cv(items) => "\""@ + lossy_text(items) + "\""@,
        Value::Op(op) => op_text(op),
        Value::Prim(prim) => prim_text(prim),
        Value::NN(items) => "["@ + joined(printed(unit, items), ";"@) + "]"@,
    }
}

/// The rendered forms of a run of values, one for one.
pub open spec fn printed(unit: Unit, items: Seq<Value>) -> Seq<Seq<char>>
    decreases items,
{
    Seq::new(
        items.len(),
        |i: int|
            if 0 <= i < items.len() {
                print_spec(unit, items[i])
            } else {
                Seq::empty()
            },
    )
}

/// Joins rendered items: `start`, the items with `delim` between each two,
/// then `end`.
pub fn vec_to_string(v: &Vec<String>, delim: &str, start: &str, end: &str) -> (r: String)
    ensures
        r@ == start@ + joined(texts(v@), delim@) + end@,
{
    let mut out = String::from_str(start);
    let mut i: usize = 0;
    while i < v.len()
        invariant
            i <= v.len(),
            out@ == start@ + joined(texts(v@).take(i as int), delim@),
        decreases v.len() - i,
    {
        if i > 0 {
            out.append(delim);
        }
        out.append(v[i].as_str());
        proof {
            let parts = texts(v@);
            assert(parts.take(i + 1).drop_last() =~= parts.take(i as int));
        }
        i = i + 1;
    }
    assert(texts(v@).take(i as int) =~= texts(v@));
    out.append(end);
    out
}

fn quoted(bytes: Vec<u8>) -> (r: String)
    ensures
        r@ == "\""@ + lossy_text(bytes@) + "\""@,
{
    let mut out = String::from_str("\"");
    out.append(Text::new(bytes).to_string().as_str());
    out.append("\"");
    out
}

/// What applying `verb` to evaluated arguments gives, and the bindings
/// afterwards. An operator and a primitive do their own work. Null looks up
/// its first argument, and is a `Rank` error without one. Nothing else can be
/// applied: `NotAVerb`.
pub open spec fn apply_spec(unit: Unit, env: Bindings, verb: Value, args: Seq<Value>) -> (
    Bindings,
    Result<Value, KrEvalError>,
) {
    match verb {
        Value::Op(op) => operator_spec(unit, env, op, args),
        Value::Prim(prim) => (env, primitive_spec(env, prim, args)),
        Value::Null => (
            env,
            if args.len() == 0 {
                Err(KrEvalError::Rank)
            } else {
                lookup(env, args[0])
            },
        ),
        _ => (env, Err(KrEvalError::NotAVerb)),
    }
}

impl Kr {
    /// Applies the value, as a verb, to evaluated arguments.
    pub fn apply<U: Fn(RealRequest) -> RealAnswer>(&self, env: Env, args: &[Kr], unit: &U) -> (r:
        (Env, Result<Kr, KrEvalError>))
        requires
            unit_ok(*unit),
            env.wf(),
        ensures
            r.0.wf(),
            r.0.options() == env.options(),
            r.0@ == apply_spec(unit_model(*unit), env@, self@, values(args@)).0,
            agrees(r.1, apply_spec(unit_model(*unit), env@, self@, values(args@)).1),
    {
        match self {
            Kr::Op(op) => op.apply(env, args, unit),
            Kr::Prim(prim) => prim.apply(env, args),
            Kr::Null => {
                if args.len() == 0 {
                    (env, Err(KrEvalError::Rank))
                } else {
                    let r = env.val(&args[0]);
                    (env, r)
                }
            },
            _ => (env, Err(KrEvalError::NotAVerb)),
        }
    }

    /// Renders the value; the unit writes the reals.
    pub fn print<U: Fn(RealRequest) -> RealAnswer>(&self, unit: &U) -> (r: String)
        requires
            unit_ok(*unit),
        ensures
            r@ == print_spec(unit_model(*unit), self@),
        decreases self,
    {
        let ghost um = unit_model(*unit);
        match self {
            Kr::I(n) => render_i64(*n as i64),
            Kr::J(n) => render_i64(*n),
            Kr::E(x) => ask_text(unit, RealRequest::Show32(*x)),
            Kr::F(x) => ask_text(unit, RealRequest::Show64(*x)),
            Kr::C(c) => {
                let one = vec![*c];
                assert(one@ =~= seq![*c]);
                quoted(one)
            },
            Kr::S(sym) => {
                let mut out = String::from_str("`");
                out.append(sym.to_string().as_str());
                out
            },
            Kr::Null => "(::)".to_string(),
            Kr::Iv(iv) => {
                let mut parts: Vec<String> = Vec::new();
                let mut i: usize = 0;
                while i < iv.len()
                    invariant
                        i <= iv.len(),
                        parts@.len() == i,
                        forall|k: int|
                            0 <= k < i ==> (#[trigger] parts@[k])@ == decimal(iv@[k] as int),
                    decreases iv.len() - i,
                {
                    parts.push(render_i64(iv[i] as i64));
                    i = i + 1;
                }
                assert(texts(parts@) =~= iv@.map_values(|n: i32| decimal(n as int)));
                proof {
                    reveal_strlit("");
                }
                vec_to_string(&parts, " ", "", "")
            },
            Kr::Jv(jv) => {
                let mut parts: Vec<String> = Vec::new();
                let mut i: usize = 0;
                while i < jv.len()
                    invariant
                        i <= jv.len(),
                        parts@.len() == i,
                        forall|k: int|
                            0 <= k < i ==> (#[trigger] parts@[k])@ == decimal(jv@[k] as int),
                    decreases jv.len() - i,
                {
                    parts.push(render_i64(jv[i]));
                    i = i + 1;
                }
                assert(texts(parts@) =~= jv@.map_values(|n: i64| decimal(n as int)));
                proof {
                    reveal_strlit("");
                }
                vec_to_string(&parts, " ", "", "")
            },
            Kr::Ev(ev) => {
                let mut parts: Vec<String> = Vec::new();
                let mut i: usize = 0;
                while i < ev.len()
                    invariant
                        unit_ok(*unit),
                        um == unit_model(*unit),
                        i <= ev.len(),
                        parts@.len() == i,
                        forall|k: int|
                            0 <= k < i ==> (#[trigger] parts@[k])@ == text_of(
                                um(Request::Show32(ev@[k])),
                            ),
                    decreases ev.len() - i,
                {
                    parts.push(ask_text(unit, RealRequest::Show32(ev[i])));
                    i = i + 1;
                }
                assert(texts(parts@) =~= ev@.map_values(|x: Real| text_of(um(Request::Show32(x)))));
                proof {
                    reveal_strlit("");
                }
                vec_to_string(&parts, " ", "", "")
            },
            Kr::Fv(fv) => {
                let mut parts: Vec<String> = Vec::new();
                let mut i: usize = 0;
                while i < fv.len()
                    invariant
                        unit_ok(*unit),
                        um == unit_model(*unit),
                        i <= fv.len(),
                        parts@.len() == i,
                        forall|k: int|
                            0 <= k < i ==> (#[trigger] parts@[k])@ == text_of(
                                um(Request::Show64(fv@[k])),
                            ),
                    decreases fv.len() - i,
                {
                    parts.push(ask_text(unit, RealRequest::Show64(fv[i])));
                    i = i + 1;
                }
                assert(texts(parts@) =~= fv@.map_values(
                    |x: Float| text_of(um(Request::Show64(x))),
                ));
                proof {
                    reveal_strlit("");
                }
                vec_to_string(&parts, " ", "", "")
            },
            Kr::Cv(cv) => quoted(cv.clone()),
            Kr::Op(op) => op.to_string(),
            Kr::Prim(prim) => prim.display(),
            Kr::NN(kl) => {
                let mut parts: Vec<String> = Vec::new();
                let mut i: usize = 0;
                while i < kl.len()
                    invariant
                        self is NN && self->NN_0 == *kl,
                        unit_ok(*unit),
                        um == unit_model(*unit),
                        i <= kl.len(),
                        parts@.len() == i,
                        forall|k: int|
                            0 <= k < i ==> (#[trigger] parts@[k])@ == print_spec(um, kl@[k]@),
                    decreases kl.len() - i,
                {
                    parts.push(kl[i].print(unit));
                    i = i + 1;
                }
                assert(texts(parts@) =~= printed(um, values(kl@)));
                vec_to_string(&parts, ";", "[", "]")
            },
        }
    }
}

} // verus!
