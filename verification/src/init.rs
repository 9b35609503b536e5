use vstd::prelude::*;
use vstd::utf8::encode_utf8;
use crate::error::KrEvalError;
use crate::kr::{Kr, Value};
use crate::operator::{Op, Operator};
use crate::primitive::{Prim, Primitive};
use crate::text::Text;
use crate::token::LOWER_A;

verus! {

/// The bindings of an environment as a mathematical value.
pub type Bindings = Map<Seq<u8>, Value>;

/// Whether an outcome of the library is the outcome that a model gives.
pub open spec fn agrees(r: Result<Kr, KrEvalError>, model: Result<Value, KrEvalError>) -> bool {
    match r {
        Ok(v) => model == Ok::<Value, KrEvalError>(v@),
        Err(e) => model == Err::<Value, KrEvalError>(e),
    }
}

/// What a lookup gives: the value bound to a symbol's name, `NotDefined` for
/// a symbol whose name is unbound, and a `Type` error for anything else.
pub open spec fn lookup(env: Bindings, v: Value) -> Result<Value, KrEvalError> {
    match v {
        Value::S(name) => {
            if env.dom().contains(name) {
                Ok(env[name])
            } else {
                Err(KrEvalError::NotDefined)
            }
        },
        _ => Err(KrEvalError::Type),
    }
}

/// The bindings that a run of entries makes.
pub open spec fn table(entries: Seq<(Seq<u8>, Value)>) -> Bindings {
    Map::new(
        |k: Seq<u8>| exists|i: int| 0 <= i < entries.len() && (#[trigger] entries[i]).0 == k,
        |k: Seq<u8>|
            entries[choose|i: int| 0 <= i < entries.len() && (#[trigger] entries[i]).0 == k].1,
    )
}

/// Whether no name stands twice among the entries.
pub open spec fn distinct(entries: Seq<(Seq<u8>, Value)>) -> bool {
    forall|i: int, j: int|
        0 <= i < j < entries.len() ==> (#[trigger] entries[i]).0 != (#[trigger] entries[j]).0
}

proof fn lemma_table_update(entries: Seq<(Seq<u8>, Value)>, i: int, v: Value)
    requires
        distinct(entries),
        0 <= i < entries.len(),
    ensures
        distinct(entries.update(i, (entries[i].0, v))),
        table(entries.update(i, (entries[i].0, v))) == table(entries).insert(entries[i].0, v),
{
    let after = entries.update(i, (entries[i].0, v));
    assert forall|k: Seq<u8>| table(after).dom().contains(k) <==> table(entries).insert(
        entries[i].0,
        v,
    ).dom().contains(k) by {
        if table(entries).dom().contains(k) {
            let j = choose|j: int| 0 <= j < entries.len() && (#[trigger] entries[j]).0 == k;
            assert(after[j].0 == k);
        }
    }
}

proof fn lemma_table_push(entries: Seq<(Seq<u8>, Value)>, k: Seq<u8>, v: Value)
    requires
        distinct(entries),
        forall|i: int| 0 <= i < entries.len() ==> (#[trigger] entries[i]).0 != k,
    ensures
        distinct(entries.push((k, v))),
        table(entries.push((k, v))) == table(entries).insert(k, v),
{
    let after = entries.push((k, v));
    let n = entries.len() as int;
    assert forall|x: Seq<u8>| table(after).dom().contains(x) <==> table(entries).insert(
        k,
        v,
    ).dom().contains(x) by {
        if table(entries).dom().contains(x) {
            let j = choose|j: int| 0 <= j < entries.len() && (#[trigger] entries[j]).0 == x;
            assert(after[j].0 == x);
        }
        if x == k {
            assert(after[n].0 == x);
        }
    }
}

/// The one namespace of a session: every name with the value bound to it.
pub struct Env {
    var: Vec<(Text, Kr)>,
    pub opts: Vec<String>,
}

impl View for Env {
    type V = Bindings;

    closed spec fn view(&self) -> Bindings {
        table(self.entries())
    }
}

impl Env {
    closed spec fn entries(&self) -> Seq<(Seq<u8>, Value)> {
        self.var@.map_values(|p: (Text, Kr)| (p.0@, p.1@))
    }

    /// The options that the environment was made with.
    pub closed spec fn options(&self) -> Vec<String> {
        self.opts
    }

    /// Whether the environment is well formed: it binds no name twice.
    pub closed spec fn wf(&self) -> bool {
        distinct(self.entries())
    }

    /// An environment that binds nothing and holds no options.
    pub fn new() -> (r: Self)
        ensures
            r.wf(),
            r@ == Map::<Seq<u8>, Value>::empty(),
            r.options()@ == Seq::<String>::empty(),
    {
        Env { var: Vec::new(), opts: Vec::new() }
    }

    fn position(&self, name: &Text) -> (r: Option<usize>)
        ensures
            match r {
                Some(i) => i < self.entries().len() && self.entries()[i as int].0 == name@,
                None => forall|i: int|
                    0 <= i < self.entries().len() ==> (#[trigger] self.entries()[i]).0 != name@,
            },
    {
        let mut i: usize = 0;
        while i < self.var.len()
            invariant
                i <= self.var.len(),
                forall|k: int| 0 <= k < i ==> (#[trigger] self.entries()[k]).0 != name@,
            decreases self.var.len() - i,
        {
            if self.var[i].0.same(name) {
                return Some(i);
            }
            i = i + 1;
        }
        None
    }

    /// The value bound to a symbol.
    pub fn val(&self, v: &Kr) -> (r: Result<Kr, KrEvalError>)
        requires
            self.wf(),
        ensures
            agrees(r, lookup(self@, v@)),
    {
        match v {
            Kr::S(s) => {
                match self.position(s) {
                    Some(i) => {
                        Ok(self.var[i].1.clone())
                    },
                    None => Err(KrEvalError::NotDefined),
                }
            },
            _ => Err(KrEvalError::Type),
        }
    }

    /// Binds `name` to `value`, in place of what it was bound to before.
    pub fn insert(&mut self, name: Text, value: Kr)
        requires
            old(self).wf(),
        ensures
            final(self).wf(),
            final(self)@ == old(self)@.insert(name@, value@),
            final(self).options() == old(self).options(),
    {
        let ghost before = self.entries();
        match self.position(&name) {
            Some(i) => {
                proof {
                    lemma_table_update(before, i as int, value@);
                }
                self.var.set(i, (name, value));
                assert(self.entries() =~= before.update(i as int, (before[i as int].0, value@)));
            },
            None => {
                proof {
                    lemma_table_push(before, name@, value@);
                }
                self.var.push((name, value));
                assert(self.entries() =~= before.push((name@, value@)));
            },
        }
    }
}

impl Clone for Env {
    fn clone(&self) -> (r: Self)
        ensures
            r@ == self@,
            self.wf() ==> r.wf(),
            r.options()@ == self.options()@,
    {
        let mut var: Vec<(Text, Kr)> = Vec::new();
        let mut i: usize = 0;
        while i < self.var.len()
            invariant
                i <= self.var.len(),
                var@.len() == i,
                forall|k: int|
                    0 <= k < i ==> (#[trigger] var@[k]).0@ == self.var@[k].0@ && var@[k].1@
                        == self.var@[k].1@,
            decreases self.var.len() - i,
        {
            var.push((self.var[i].0.clone(), self.var[i].1.clone()));
            i = i + 1;
        }
        let mut opts: Vec<String> = Vec::new();
        let mut j: usize = 0;
        while j < self.opts.len()
            invariant
                j <= self.opts.len(),
                opts@.len() == j,
                forall|k: int| 0 <= k < j ==> #[trigger] opts@[k] == self.opts@[k],
            decreases self.opts.len() - j,
        {
            opts.push(self.opts[j].clone());
            j = j + 1;
        }
        let r = Env { var, opts };
        assert(r.entries() =~= self.entries());
        r
    }
}

/// The name that a string writes.
pub open spec fn name(s: Seq<char>) -> Seq<u8> {
    encode_utf8(s)
}

/// What a session starts with: three constants, four of the primitives under
/// their names, and the six operators under their characters.
pub open spec fn initial_bindings() -> Bindings {
    Map::<Seq<u8>, Value>::empty().insert(name("one"@), Value::J(1)).insert(
        name("two"@),
        Value::J(2),
    ).insert(name("alph"@), Value::C(LOWER_A)).insert(
        name("first"@),
        Value::Prim(Prim::First),
    ).insert(name("last"@), Value::Prim(Prim::Last)).insert(
        name("til"@),
        Value::Prim(Prim::Til),
    ).insert(name("value"@), Value::Prim(Prim::Value)).insert(
        name("+"@),
        Value::Op(Op::Addition),
    ).insert(name("-"@), Value::Op(Op::Subtraction)).insert(
        name("*"@),
        Value::Op(Op::Multiplication),
    ).insert(name("%"@), Value::Op(Op::Division)).insert(
        name(":"@),
        Value::Op(Op::Assign),
    ).insert(name(","@), Value::Op(Op::Join))
}

/// The environment that a session starts with.
pub fn init() -> (env: Env)
    ensures
        env.wf(),
        env@ == initial_bindings(),
        env.options()@ == Seq::<String>::empty(),
{
    let mut env: Env = Env::new();
    env.insert(Text::from_str("one"), Kr::J(1));
    env.insert(Text::from_str("two"), Kr::J(2));
    env.insert(Text::from_str("alph"), Kr::C(LOWER_A));
    env.insert(Text::from_str("first"), Kr::Prim(Primitive::new(Prim::First)));
    env.insert(Text::from_str("last"), Kr::Prim(Primitive::new(Prim::Last)));
    env.insert(Text::from_str("til"), Kr::Prim(Primitive::new(Prim::Til)));
    env.insert(Text::from_str("value"), Kr::Prim(Primitive::new(Prim::Value)));
    env.insert(Text::from_str("+"), Kr::Op(Operator::new(Op::Addition)));
    env.insert(Text::from_str("-"), Kr::Op(Operator::new(Op::Subtraction)));
    env.insert(Text::from_str("*"), Kr::Op(Operator::new(Op::Multiplication)));
    env.insert(Text::from_str("%"), Kr::Op(Operator::new(Op::Division)));
    env.insert(Text::from_str(":"), Kr::Op(Operator::new(Op::Assign)));
    env.insert(Text::from_str(","), Kr::Op(Operator::new(Op::Join)));
    env
}

} // verus!
