use kr::error::KrEvalError;
use kr::init::init;
use kr::init::Env;
use kr::kr::Kr;
use kr::operator::Op;
use kr::operator::Operator;
use kr::primitive::kr_enlist;
use kr::primitive::kr_first;
use kr::primitive::kr_last;
use kr::primitive::kr_til;
use kr::primitive::kr_value;
use kr::primitive::Prim;
use kr::primitive::Primitive;
use kr::reals::Float;
use kr::reals::Real;
use kr::text::Text;

fn single(x: f32) -> Real {
    Real(x.to_bits())
}

fn double(x: f64) -> Float {
    Float(x.to_bits())
}

fn enlist(args: &[Kr]) -> Kr {
    Primitive::new(Prim::Enlist).apply(Env::new(), args).1.unwrap()
}

#[test]
fn primitives_have_their_text_and_rank() {
    assert_eq!(Primitive::new(Prim::First).display(), "first");
    assert_eq!(Primitive::new(Prim::Last).display(), "last");
    assert_eq!(Primitive::new(Prim::Til).display(), "til");
    assert_eq!(Primitive::new(Prim::Enlist).display(), "enlist");
    assert_eq!(Primitive::new(Prim::Value).display(), "value");
    assert_eq!(Primitive::new(Prim::Value).to_string(), "value");
    assert_eq!(Primitive::new(Prim::First).rank(), Some(1));
    assert_eq!(Primitive::new(Prim::Last).rank(), Some(1));
    assert_eq!(Primitive::new(Prim::Til).rank(), Some(1));
    assert_eq!(Primitive::new(Prim::Value).rank(), Some(1));
    assert_eq!(Primitive::new(Prim::Enlist).rank(), None);
    assert_eq!(Primitive::new(Prim::Til).prim(), Prim::Til);
}

#[test]
fn first_and_last_of_a_vector() {
    assert_eq!(kr_first(&Kr::Iv(vec![4, 5, 6])), Ok(Kr::I(4)));
    assert_eq!(kr_last(&Kr::Iv(vec![4, 5, 6])), Ok(Kr::I(6)));
    assert_eq!(kr_first(&Kr::Jv(vec![7])), Ok(Kr::J(7)));
    assert_eq!(kr_last(&Kr::Jv(vec![7])), Ok(Kr::J(7)));
    assert_eq!(kr_first(&Kr::Ev(vec![single(1.5), single(2.5)])), Ok(Kr::E(single(1.5))));
    assert_eq!(kr_last(&Kr::Ev(vec![single(1.5), single(2.5)])), Ok(Kr::E(single(2.5))));
    assert_eq!(kr_first(&Kr::Fv(vec![double(1.5), double(2.5)])), Ok(Kr::F(double(1.5))));
    assert_eq!(kr_last(&Kr::Fv(vec![double(1.5), double(2.5)])), Ok(Kr::F(double(2.5))));
    assert_eq!(kr_first(&Kr::Cv(vec![0x61, 0x62])), Ok(Kr::C(0x61)));
    assert_eq!(kr_last(&Kr::Cv(vec![0x61, 0x62])), Ok(Kr::C(0x62)));
    let list = Kr::NN(vec![Kr::J(1), Kr::Null, Kr::Cv(vec![0x61])]);
    assert_eq!(kr_first(&list), Ok(Kr::J(1)));
    assert_eq!(kr_last(&list), Ok(Kr::Cv(vec![0x61])));
}

#[test]
fn first_and_last_of_an_empty_vector_are_the_default() {
    assert_eq!(kr_first(&Kr::Iv(vec![])), Ok(Kr::I(0)));
    assert_eq!(kr_last(&Kr::Iv(vec![])), Ok(Kr::I(0)));
    assert_eq!(kr_first(&Kr::Jv(vec![])), Ok(Kr::J(0)));
    assert_eq!(kr_last(&Kr::Jv(vec![])), Ok(Kr::J(0)));
    assert_eq!(kr_first(&Kr::Ev(vec![])), Ok(Kr::E(single(0.0))));
    assert_eq!(kr_last(&Kr::Ev(vec![])), Ok(Kr::E(single(0.0))));
    assert_eq!(kr_first(&Kr::Fv(vec![])), Ok(Kr::F(double(0.0))));
    assert_eq!(kr_last(&Kr::Fv(vec![])), Ok(Kr::F(double(0.0))));
    assert_eq!(kr_first(&Kr::Cv(vec![])), Ok(Kr::C(0x20)));
    assert_eq!(kr_last(&Kr::Cv(vec![])), Ok(Kr::C(0x20)));
    assert_eq!(kr_first(&Kr::NN(vec![])), Ok(Kr::Null));
    assert_eq!(kr_last(&Kr::NN(vec![])), Ok(Kr::Null));
}

#[test]
fn first_and_last_of_a_scalar_are_the_scalar() {
    let atoms = [Kr::I(3), Kr::J(-4), Kr::E(single(1.5)), Kr::F(double(2.5)), Kr::C(0x7a)];
    for a in atoms.iter() {
        assert_eq!(kr_first(a).as_ref(), Ok(a));
        assert_eq!(kr_last(a).as_ref(), Ok(a));
    }
}

#[test]
fn first_and_last_of_anything_else_are_a_type_error() {
    let others = [
        Kr::S(Text::from_str("s")),
        Kr::Null,
        Kr::Op(Operator::new(Op::Addition)),
        Kr::Prim(Primitive::new(Prim::First)),
    ];
    for x in others.iter() {
        assert_eq!(kr_first(x), Err(KrEvalError::Type));
        assert_eq!(kr_last(x), Err(KrEvalError::Type));
    }
}

#[test]
fn til_counts_up_to_its_argument() {
    assert_eq!(kr_til(&Kr::J(3)), Ok(Kr::Jv(vec![0, 1, 2])));
    assert_eq!(kr_til(&Kr::J(1)), Ok(Kr::Jv(vec![0])));
    assert_eq!(kr_til(&Kr::J(0)), Ok(Kr::Jv(vec![])));
    assert_eq!(kr_til(&Kr::J(-5)), Ok(Kr::Jv(vec![])));
    assert_eq!(kr_til(&Kr::J(i64::MIN)), Ok(Kr::Jv(vec![])));
    match kr_til(&Kr::J(1000)) {
        Ok(Kr::Jv(v)) => {
            assert_eq!(v.len(), 1000);
            assert_eq!(v[999], 999);
        }
        other => panic!("no vector: {:?}", other),
    }
}

#[test]
fn til_of_anything_but_a_long_is_a_type_error() {
    assert_eq!(kr_til(&Kr::I(3)), Err(KrEvalError::Type));
    assert_eq!(kr_til(&Kr::F(double(3.0))), Err(KrEvalError::Type));
    assert_eq!(kr_til(&Kr::Jv(vec![3])), Err(KrEvalError::Type));
    assert_eq!(kr_til(&Kr::Null), Err(KrEvalError::Type));
}

#[test]
fn enlist_of_scalars_of_one_family_is_a_vector() {
    assert_eq!(enlist(&[Kr::I(1)]), Kr::Iv(vec![1]));
    assert_eq!(enlist(&[Kr::I(1), Kr::I(2)]), Kr::Iv(vec![1, 2]));
    assert_eq!(enlist(&[Kr::J(1), Kr::J(2), Kr::J(3)]), Kr::Jv(vec![1, 2, 3]));
    assert_eq!(
        enlist(&[Kr::E(single(1.0)), Kr::E(single(2.0))]),
        Kr::Ev(vec![single(1.0), single(2.0)])
    );
    assert_eq!(enlist(&[Kr::F(double(1.0))]), Kr::Fv(vec![double(1.0)]));
    assert_eq!(enlist(&[Kr::C(0x68), Kr::C(0x69)]), Kr::Cv(vec![0x68, 0x69]));
}

#[test]
fn enlist_of_anything_else_is_a_generic_list() {
    assert_eq!(enlist(&[]), Kr::NN(vec![]));
    assert_eq!(enlist(&[Kr::I(1), Kr::J(2)]), Kr::NN(vec![Kr::I(1), Kr::J(2)]));
    assert_eq!(enlist(&[Kr::J(1), Kr::J(2), Kr::Null]), Kr::NN(vec![Kr::J(1), Kr::J(2), Kr::Null]));
    assert_eq!(enlist(&[Kr::Null, Kr::J(1)]), Kr::NN(vec![Kr::Null, Kr::J(1)]));
    assert_eq!(
        enlist(&[Kr::E(single(1.0)), Kr::F(double(1.0))]),
        Kr::NN(vec![Kr::E(single(1.0)), Kr::F(double(1.0))])
    );
    assert_eq!(enlist(&[Kr::Jv(vec![1])]), Kr::NN(vec![Kr::Jv(vec![1])]));
    assert_eq!(enlist(&[Kr::Jv(vec![1]), Kr::Jv(vec![2])]), Kr::NN(vec![Kr::Jv(vec![1]), Kr::Jv(vec![2])]));
    assert_eq!(
        enlist(&[Kr::S(Text::from_str("a")), Kr::S(Text::from_str("b"))]),
        Kr::NN(vec![Kr::S(Text::from_str("a")), Kr::S(Text::from_str("b"))])
    );
    assert_eq!(enlist(&[Kr::Null]), Kr::NN(vec![Kr::Null]));
    assert_eq!(enlist(&[Kr::C(0x61), Kr::I(1), Kr::C(0x62)]), Kr::NN(vec![Kr::C(0x61), Kr::I(1), Kr::C(0x62)]));
}

#[test]
fn enlist_takes_any_number_of_arguments() {
    for n in 0..5usize {
        let args: Vec<Kr> = (0..n).map(|_| Kr::Null).collect();
        let (_, r) = kr_enlist(Env::new(), &args);
        assert_eq!(r, Ok(Kr::NN(args)));
    }
}

#[test]
fn value_looks_a_symbol_up() {
    let (env, r) = kr_value(init(), &[Kr::S(Text::from_str("two"))]);
    assert_eq!(r, Ok(Kr::J(2)));
    let (env, r) = kr_value(env, &[Kr::S(Text::from_str("nothing"))]);
    assert_eq!(r, Err(KrEvalError::NotDefined));
    let (env, r) = kr_value(env, &[Kr::J(1)]);
    assert_eq!(r, Err(KrEvalError::Type));
    let (_, r) = Primitive::new(Prim::Value).apply(env, &[Kr::S(Text::from_str("til"))]);
    assert_eq!(r, Ok(Kr::Prim(Primitive::new(Prim::Til))));
}

#[test]
fn a_primitive_of_one_argument_checks_the_count() {
    for p in [Prim::First, Prim::Last, Prim::Til, Prim::Value].iter() {
        let (_, r) = Primitive::new(*p).apply(Env::new(), &[]);
        assert_eq!(r, Err(KrEvalError::Rank));
        let (_, r) = Primitive::new(*p).apply(Env::new(), &[Kr::J(1), Kr::J(2)]);
        assert_eq!(r, Err(KrEvalError::Rank));
    }
    let (_, r) = Primitive::new(Prim::First).apply(Env::new(), &[Kr::Jv(vec![9, 8])]);
    assert_eq!(r, Ok(Kr::J(9)));
    let (_, r) = Primitive::new(Prim::Last).apply(Env::new(), &[Kr::Jv(vec![9, 8])]);
    assert_eq!(r, Ok(Kr::J(8)));
    let (_, r) = Primitive::new(Prim::Til).apply(Env::new(), &[Kr::J(2)]);
    assert_eq!(r, Ok(Kr::Jv(vec![0, 1])));
}
