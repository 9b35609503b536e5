use vstd::prelude::*;
use crate::error::KrEvalError;
use crate::init::{Bindings, Env, agrees, lookup};
use crate::kr::{Kr, Value, apply_spec, lemma_values_push, values};
use crate::operator::Op;
use crate::primitive::Prim;
use crate::reals::{RealAnswer, RealRequest, Unit, unit_model, unit_ok};
use crate::token::reference;

verus! {

/// The symbol that the left operand of an assignment names. The operand is
/// not evaluated: a symbol names itself, and the lookup of a symbol, which
/// is what a name parses into, names that symbol. Any other operand stands
/// as it is, and is then no symbol.
pub open spec fn target(x: Value) -> Value {
    match x {
        Value::NN(items) => {
            if items.len() == 2 && items[0] == Value::Prim(Prim::Value) && items[1] is S {
                items[1]
            } else {
                x
            }
        },
        _ => x,
    }
}

/// The value of an expression, and the bindings after its evaluation.
///
/// Anything but a generic list is its own value. The empty list is null. A
/// list of one item is that item, unevaluated, but for a symbol, which is
/// looked up. A longer list is an application: its items are evaluated from
/// left to right, each in the bindings that the one before left behind, and
/// the value of the first is applied to the values of the rest. Where the
/// first is the assignment operator and two operands follow, the left one is
/// not evaluated but names the target. The first error ends the evaluation,
/// and the bindings made until then stay.
pub open spec fn eval_spec(unit: Unit, env: Bindings, expr: Value) -> (
    Bindings,
    Result<Value, KrEvalError>,
)
    decreases expr, 0nat,
{
    match expr {
        Value::NN(items) => {
            if items.len() == 0 {
                (env, Ok(Value::Null))
            } else if items.len() == 1 {
                match items[0] {
                    Value::S(_) => (env, lookup(env, items[0])),
                    other => (env, Ok(other)),
                }
            } else {
                let (env1, head) = eval_spec(unit, env, items[0]);
                match head {
                    Err(e) => (env1, Err(e)),
                    Ok(verb) => {
                        if verb == Value::Op(Op::Assign) && items.len() == 3 {
                            let (env2, right) = eval_spec(unit, env1, items[2]);
                            match right {
                                Err(e) => (env2, Err(e)),
                                Ok(v) => apply_spec(unit, env2, verb, seq![target(items[1]), v]),
                            }
                        } else {
                            let (env2, rest) = eval_args(unit, env1, items, 1);
                            match rest {
                                Err(e) => (env2, Err(e)),
                                Ok(args) => apply_spec(unit, env2, verb, args),
                            }
                        }
                    },
                }
            }
        },
        other => (env, Ok(other)),
    }
}

/// The values of the items from position `k` on, evaluated from left to
/// right, and the bindings after the last of them or after the first error.
pub open spec fn eval_args(unit: Unit, env: Bindings, items: Seq<Value>, k: int) -> (
    Bindings,
    Result<Seq<Value>, KrEvalError>,
)
    decreases items, items.len() - k,
{
    if 0 <= k < items.len() {
        let (env1, first) = eval_spec(unit, env, items[k]);
        match first {
            Err(e) => (env1, Err(e)),
            Ok(v) => {
                let (env2, rest) = eval_args(unit, env1, items, k + 1);
                match rest {
                    Err(e) => (env2, Err(e)),
                    Ok(vs) => (env2, Ok(seq![v] + vs)),
                }
            },
        }
    } else {
        (env, Ok(Seq::empty()))
    }
}

/// `done`, then what `rest` holds.
pub open spec fn args_after(done: Seq<Value>, rest: (Bindings, Result<Seq<Value>, KrEvalError>))
    -> (Bindings, Result<Seq<Value>, KrEvalError>) {
    match rest.1 {
        Err(e) => (rest.0, Err(e)),
        Ok(vs) => (rest.0, Ok(done + vs)),
    }
}

/// Whether an expression is free of assignment by its form: it is no list,
/// or a list of at most one item, or an application whose first item is a
/// plain value other than the assignment operator, and whose other items are
/// free of assignment too. A closed numeric expression, in which operators
/// other than assignment stand over numbers, is of this form.
pub open spec fn assigns_nothing(expr: Value) -> bool
    decreases expr,
{
    match expr {
        Value::NN(items) => {
            items.len() <= 1 || (!(items[0] is NN) && items[0] != Value::Op(Op::Assign)
                && forall|i: int|
                1 <= i < items.len() ==> assigns_nothing(#[trigger] items[i]))
        },
        _ => true,
    }
}

/// No application changes the bindings unless its verb is the assignment
/// operator.
pub proof fn lemma_apply_keeps_bindings(unit: Unit, env: Bindings, verb: Value, args: Seq<Value>)
    requires
        verb != Value::Op(Op::Assign),
    ensures
        apply_spec(unit, env, verb, args).0 == env,
{
}

/// An expression that is free of assignment leaves the bindings as they
/// were, so that a second evaluation gives what the first one gave.
pub proof fn lemma_pure_evaluation(unit: Unit, env: Bindings, expr: Value)
    requires
        assigns_nothing(expr),
    ensures
        eval_spec(unit, env, expr).0 == env,
        eval_spec(unit, eval_spec(unit, env, expr).0, expr) == eval_spec(unit, env, expr),
    decreases expr, 0nat,
{
    match expr {
        Value::NN(items) => {
            if items.len() >= 2 {
                lemma_pure_arguments(unit, env, items, 1);
                let verb = items[0];
                assert(eval_spec(unit, env, verb) == (env, Ok::<Value, KrEvalError>(verb)));
            }
        },
        _ => {},
    }
}

/// Arguments that are free of assignment leave the bindings as they were.
pub proof fn lemma_pure_arguments(unit: Unit, env: Bindings, items: Seq<Value>, k: int)
    requires
        forall|i: int| k <= i < items.len() ==> assigns_nothing(#[trigger] items[i]),
        0 <= k,
    ensures
        eval_args(unit, env, items, k).0 == env,
    decreases items, items.len() - k,
{
    if k < items.len() {
        lemma_pure_evaluation(unit, env, items[k]);
        lemma_pure_arguments(unit, env, items, k + 1);
    }
}

/// Assigning to a name and then reading the name gives the value that was
/// assigned. Where `left` names the symbol `name` and `rhs` has the value
/// `v`, the assignment of `rhs` to `left` gives null and binds `name` to `v`
/// on top of what evaluating `rhs` left behind; reading the name in those
/// bindings gives `v` and changes nothing.
pub proof fn lemma_assign_then_read(
    unit: Unit,
    env: Bindings,
    left: Value,
    name: Seq<u8>,
    rhs: Value,
)
    requires
        target(left) == Value::S(name),
        eval_spec(unit, env, rhs).1 is Ok,
    ensures
        ({
            let (env1, v) = eval_spec(unit, env, rhs);
            let assignment = Value::NN(seq![Value::Op(Op::Assign), left, rhs]);
            let after = eval_spec(unit, env, assignment);
            &&& after.1 == Ok::<Value, KrEvalError>(Value::Null)
            &&& after.0 == env1.insert(name, v->Ok_0)
            &&& eval_spec(unit, after.0, reference(name)) == (after.0, v)
        }),
{
    let (env1, v) = eval_spec(unit, env, rhs);
    let bound = env1.insert(name, v->Ok_0);
    // The assignment: its head is the operator itself, its left side is not evaluated.
    let items = seq![Value::Op(Op::Assign), left, rhs];
    assert(eval_spec(unit, env, items[0]) == (env, Ok::<Value, KrEvalError>(items[0])));
    // Reading the name applies the lookup primitive to the symbol.
    let pair = seq![Value::Prim(Prim::Value), Value::S(name)];
    assert(eval_spec(unit, bound, pair[0]) == (bound, Ok::<Value, KrEvalError>(pair[0])));
    reveal_with_fuel(eval_args, 3);
    assert(eval_args(unit, bound, pair, 1) == (
        bound,
        Ok::<Seq<Value>, KrEvalError>(seq![pair[1]]),
    ));
}

/// A name and its symbol both name the symbol.
pub proof fn lemma_target_of_a_name(name: Seq<u8>)
    ensures
        target(reference(name)) == Value::S(name),
        target(Value::S(name)) == Value::S(name),
{
}

fn designated(x: &Kr) -> (r: Kr)
    ensures
        r@ == target(x@),
{
    match x {
        Kr::NN(items) => {
            assert(x@ == Value::NN(values(items@)));
            if items.len() == 2 {
                match (&items[0], &items[1]) {
                    (Kr::Prim(p), Kr::S(name)) => {
                        match p.prim() {
                            Prim::Value => Kr::S(name.clone()),
                            _ => x.clone(),
                        }
                    },
                    _ => x.clone(),
                }
            } else {
                x.clone()
            }
        },
        _ => x.clone(),
    }
}

/// Evaluates an expression in an environment, and hands back the
/// environment as the evaluation left it.
pub fn eval<U: Fn(RealRequest) -> RealAnswer>(env: Env, ast: &Kr, unit: &U) -> (r: (
    Env,
    Result<Kr, KrEvalError>,
))
    requires
        unit_ok(*unit),
        env.wf(),
    ensures
        r.0.wf(),
        r.0.options() == env.options(),
        r.0@ == eval_spec(unit_model(*unit), env@, ast@).0,
        agrees(r.1, eval_spec(unit_model(*unit), env@, ast@).1),
    decreases ast,
{
    let ghost um = unit_model(*unit);
    match ast {
        Kr::NN(t) => {
            let ghost items = values(t@);
            if t.len() == 0 {
                (env, Ok(Kr::Null))
            } else if t.len() == 1 {
                match &t[0] {
                    Kr::S(_) => {
                        let r = env.val(&t[0]);
                        (env, r)
                    },
                    other => (env, Ok(other.clone())),
                }
            } else {
                let (first_env, head) = eval(env, &t[0], unit);
                let verb = match head {
                    Err(err) => {
                        return (first_env, Err(err));
                    },
                    Ok(x) => x,
                };
                let assigns = match &verb {
                    Kr::Op(op) => {
                        match op.op() {
                            Op::Assign => true,
                            _ => false,
                        }
                    },
                    _ => false,
                };
                if assigns && t.len() == 3 {
                    let (e, right) = eval(first_env, &t[2], unit);
                    let v = match right {
                        Err(err) => {
                            return (e, Err(err));
                        },
                        Ok(x) => x,
                    };
                    let args = vec![designated(&t[1]), v];
                    verb.apply(e, args.as_slice(), unit)
                } else {
                    let mut results: Vec<Kr> = Vec::new();
                    let mut e: Env = first_env;
                    let mut i: usize = 1;
                    let ghost whole = eval_args(um, first_env@, items, 1);
                    let ghost goal = eval_spec(um, env@, ast@);
                    while i < t.len()
                        invariant
                            ast is NN && ast->NN_0 == *t,
                            unit_ok(*unit),
                            um == unit_model(*unit),
                            items == values(t@),
                            1 <= i <= t.len(),
                            e.wf(),
                            e.options() == env.options(),
                            goal == eval_spec(um, env@, ast@),
                            goal == match whole.1 {
                                Err(err) => (whole.0, Err::<Value, KrEvalError>(err)),
                                Ok(args) => apply_spec(um, whole.0, verb@, args),
                            },
                            whole == args_after(
                                values(results@),
                                eval_args(um, e@, items, i as int),
                            ),
                        decreases t.len() - i,
                    {
                        let ghost before = values(results@);
                        let (new_env, kr) = eval(e, &t[i], unit);
                        let kr = match kr {
                            Ok(x) => x,
                            Err(err) => {
                                return (new_env, Err(err));
                            },
                        };
                        proof {
                            lemma_values_push(results@, kr);
                            let rest = eval_args(um, new_env@, items, i + 1);
                            match rest.1 {
                                Ok(vs) => {
                                    assert(before + (seq![kr@] + vs) =~= before.push(kr@) + vs);
                                },
                                Err(_) => {},
                            }
                        }
                        results.push(kr);
                        e = new_env;
                        i = i + 1;
                    }
                    verb.apply(e, results.as_slice(), unit)
                }
            }
        },
        other => (env, Ok(other.clone())),
    }
}

} // verus!
