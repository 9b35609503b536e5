use kr::error::KrEvalError;
use kr::eval::eval;
use kr::init::init;
use kr::init::Env;
use kr::kr::Kr;
use kr::operator::Op;
use kr::operator::Operator;
use kr::parse::parse_text;
use kr::primitive::Prim;
use kr::primitive::Primitive;
use kr::reals::Float;
use kr::reals::Real;
use kr::reals::RealAnswer;
use kr::reals::RealOp;
use kr::reals::RealRequest;
use kr::text::Text;

fn digits32(d: Vec<u8>) -> f32 {
    String::from_utf8(d).unwrap().parse::<f32>().unwrap()
}

fn digits64(d: Vec<u8>) -> f64 {
    String::from_utf8(d).unwrap().parse::<f64>().unwrap()
}

fn arith32(op: RealOp, a: f32, b: f32) -> f32 {
    match op {
        RealOp::Add => a + b,
        RealOp::Sub => a - b,
        RealOp::Mul => a * b,
        RealOp::Div => a / b,
    }
}

fn arith64(op: RealOp, a: f64, b: f64) -> f64 {
    match op {
        RealOp::Add => a + b,
        RealOp::Sub => a - b,
        RealOp::Mul => a * b,
        RealOp::Div => a / b,
    }
}

fn unit(q: RealRequest) -> RealAnswer {
    match q {
        RealRequest::Literal32(d) => RealAnswer::Single(Real(digits32(d).to_bits())),
        RealRequest::Literal64(d) => RealAnswer::Double(Float(digits64(d).to_bits())),
        RealRequest::Ratio32(x, y) => RealAnswer::Single(Real(((x as f32) / (y as f32)).to_bits())),
        RealRequest::Ratio64(x, y) => RealAnswer::Double(Float(((x as f64) / (y as f64)).to_bits())),
        RealRequest::Arith32(op, x, y) => {
            RealAnswer::Single(Real(arith32(op, f32::from_bits(x.0), f32::from_bits(y.0)).to_bits()))
        }
        RealRequest::Arith64(op, x, y) => {
            RealAnswer::Double(Float(arith64(op, f64::from_bits(x.0), f64::from_bits(y.0)).to_bits()))
        }
        RealRequest::Show32(x) => RealAnswer::Text(f32::from_bits(x.0).to_string()),
        RealRequest::Show64(x) => RealAnswer::Text(f64::from_bits(x.0).to_string()),
    }
}

fn single(x: f32) -> Real {
    Real(x.to_bits())
}

fn double(x: f64) -> Float {
    Float(x.to_bits())
}

fn sym(s: &str) -> Kr {
    Kr::S(Text::from_str(s))
}

fn op(o: Op) -> Kr {
    Kr::Op(Operator::new(o))
}

fn prim(p: Prim) -> Kr {
    Kr::Prim(Primitive::new(p))
}

/// Evaluates one line.
fn line(env: Env, text: &str) -> (Env, Result<Kr, KrEvalError>) {
    let ast = parse_text(&text.to_string(), &unit).unwrap();
    eval(env, &ast, &unit)
}

/// The value of one line in a fresh session.
fn value_of(text: &str) -> Result<Kr, KrEvalError> {
    line(init(), text).1
}

/// The rendered value of one line in a fresh session.
fn shown(text: &str) -> String {
    value_of(text).unwrap().print(&unit)
}

#[test]
fn what_is_no_list_is_its_own_value() {
    let values = [
        Kr::I(1),
        Kr::Iv(vec![1, 2]),
        Kr::J(2),
        Kr::Jv(vec![]),
        Kr::E(single(1.5)),
        Kr::Ev(vec![single(1.5)]),
        Kr::F(double(2.5)),
        Kr::Fv(vec![double(2.5)]),
        Kr::C(0x61),
        Kr::Cv(vec![0x61, 0x62]),
        sym("unbound"),
        op(Op::Assign),
        prim(Prim::Til),
        Kr::Null,
    ];
    for v in values.iter() {
        let (_, r) = eval(Env::new(), v, &unit);
        assert_eq!(r.as_ref(), Ok(v));
    }
}

#[test]
fn the_empty_list_is_null() {
    let (_, r) = eval(Env::new(), &Kr::NN(vec![]), &unit);
    assert_eq!(r, Ok(Kr::Null));
}

#[test]
fn a_list_of_one_item_is_that_item() {
    let (_, r) = eval(Env::new(), &Kr::NN(vec![Kr::J(5)]), &unit);
    assert_eq!(r, Ok(Kr::J(5)));
    let inner = Kr::NN(vec![op(Op::Addition), Kr::J(1), Kr::J(2)]);
    let (_, r) = eval(Env::new(), &Kr::NN(vec![inner.clone()]), &unit);
    assert_eq!(r, Ok(inner));
}

#[test]
fn a_list_of_one_symbol_is_looked_up() {
    let (env, r) = eval(init(), &Kr::NN(vec![sym("two")]), &unit);
    assert_eq!(r, Ok(Kr::J(2)));
    let (_, r) = eval(env, &Kr::NN(vec![sym("nothing")]), &unit);
    assert_eq!(r, Err(KrEvalError::NotDefined));
}

#[test]
fn a_null_head_looks_its_first_argument_up() {
    let (env, r) = eval(init(), &Kr::NN(vec![Kr::Null, sym("one")]), &unit);
    assert_eq!(r, Ok(Kr::J(1)));
    let (env, r) = eval(env, &Kr::NN(vec![Kr::Null, sym("nothing")]), &unit);
    assert_eq!(r, Err(KrEvalError::NotDefined));
    let (env, r) = eval(env, &Kr::NN(vec![Kr::Null, Kr::J(1)]), &unit);
    assert_eq!(r, Err(KrEvalError::Type));
    let (env, r) = Kr::Null.apply(env, &[], &unit);
    assert_eq!(r, Err(KrEvalError::Rank));
    let (_, r) = Kr::Null.apply(env, &[sym("two"), Kr::J(9)], &unit);
    assert_eq!(r, Ok(Kr::J(2)));
}

#[test]
fn names_of_the_fresh_session() {
    assert_eq!(value_of("one"), Ok(Kr::J(1)));
    assert_eq!(value_of("two"), Ok(Kr::J(2)));
    assert_eq!(value_of("alph"), Ok(Kr::C(0x61)));
    assert_eq!(value_of("one+two"), Ok(Kr::J(3)));
    assert_eq!(value_of("first"), Ok(prim(Prim::First)));
    assert_eq!(value_of("last"), Ok(prim(Prim::Last)));
    assert_eq!(value_of("til"), Ok(prim(Prim::Til)));
    assert_eq!(value_of("value"), Ok(prim(Prim::Value)));
    assert_eq!(value_of("enlist"), Err(KrEvalError::NotDefined));
}

#[test]
fn the_fresh_session_binds_the_operators_under_their_characters() {
    let env = init();
    assert_eq!(env.val(&sym("+")), Ok(op(Op::Addition)));
    assert_eq!(env.val(&sym("-")), Ok(op(Op::Subtraction)));
    assert_eq!(env.val(&sym("*")), Ok(op(Op::Multiplication)));
    assert_eq!(env.val(&sym("%")), Ok(op(Op::Division)));
    assert_eq!(env.val(&sym(":")), Ok(op(Op::Assign)));
    assert_eq!(env.val(&sym(",")), Ok(op(Op::Join)));
}

#[test]
fn the_environment_keeps_its_options() {
    let opts = vec!["kr".to_string(), "--debug".to_string()];
    assert_eq!(init().opts, Vec::<String>::new());
    assert_eq!(Env::new().opts, Vec::<String>::new());
    let mut env = init();
    env.opts = opts.clone();
    let (env, _) = line(env, "x:1");
    assert_eq!(env.opts, opts);
    let (env, _) = line(env, "nothing");
    assert_eq!(env.opts, opts);
    assert_eq!(env.clone().opts, opts);
    assert_eq!(env.clone().val(&sym("x")), Ok(Kr::J(1)));
}

#[test]
fn insert_binds_and_overwrites() {
    let mut env = Env::new();
    assert_eq!(env.val(&sym("a")), Err(KrEvalError::NotDefined));
    env.insert(Text::from_str("a"), Kr::J(1));
    env.insert(Text::from_str("b"), Kr::J(2));
    assert_eq!(env.val(&sym("a")), Ok(Kr::J(1)));
    assert_eq!(env.val(&sym("b")), Ok(Kr::J(2)));
    env.insert(Text::from_str("a"), Kr::Cv(vec![0x78]));
    assert_eq!(env.val(&sym("a")), Ok(Kr::Cv(vec![0x78])));
    assert_eq!(env.val(&sym("b")), Ok(Kr::J(2)));
    assert_eq!(env.val(&Kr::J(1)), Err(KrEvalError::Type));
    assert_eq!(env.val(&Kr::Cv(vec![0x61])), Err(KrEvalError::Type));
}

#[test]
fn assignment_to_a_name_binds_it() {
    let (env, r) = line(init(), "x:5");
    assert_eq!(r, Ok(Kr::Null));
    assert_eq!(env.val(&sym("x")), Ok(Kr::J(5)));
    let (_, r) = line(env, "x");
    assert_eq!(r, Ok(Kr::J(5)));
}

#[test]
fn assignment_to_a_symbol_binds_it() {
    let (env, r) = line(init(), "`x:5");
    assert_eq!(r, Ok(Kr::Null));
    let (_, r) = line(env, "x+1");
    assert_eq!(r, Ok(Kr::J(6)));
}

#[test]
fn assignment_overwrites() {
    let (env, _) = line(init(), "one:10");
    let (env, r) = line(env, "one+two");
    assert_eq!(r, Ok(Kr::J(12)));
    let (env, _) = line(env, "one:one+one");
    let (_, r) = line(env, "one");
    assert_eq!(r, Ok(Kr::J(20)));
}

#[test]
fn assignment_to_what_is_no_symbol_is_an_error() {
    let (env, r) = line(init(), "1:5");
    assert_eq!(r, Err(KrEvalError::Assign));
    let (env, r) = line(env, "\"x\":5");
    assert_eq!(r, Err(KrEvalError::Assign));
    let (env, r) = line(env, "(til 3):5");
    assert_eq!(r, Err(KrEvalError::Assign));
    assert_eq!(env.val(&sym("x")), Err(KrEvalError::NotDefined));
}

#[test]
fn assignment_evaluates_its_right_side_first() {
    let (env, r) = line(init(), "1:nothing");
    assert_eq!(r, Err(KrEvalError::NotDefined));
    let (env, r) = line(env, "a:b:3");
    assert_eq!(r, Ok(Kr::Null));
    assert_eq!(env.val(&sym("b")), Ok(Kr::J(3)));
    assert_eq!(env.val(&sym("a")), Ok(Kr::Null));
}

#[test]
fn the_value_assigned_is_the_value_read() {
    let cases = ["5", "1+2", "til 4", "\"text\"", "`s", "[1;`a]", "3e%2e", "1,2,3"];
    for rhs in cases.iter() {
        let expected = value_of(rhs).unwrap();
        let (env, r) = line(init(), &format!("v:{}", rhs));
        assert_eq!(r, Ok(Kr::Null));
        let (_, r) = line(env, "v");
        assert_eq!(r, Ok(expected));
    }
}

#[test]
fn arguments_are_evaluated_from_left_to_right() {
    let (env, r) = line(init(), "[x:1;x+1;x:x+10;x]");
    assert_eq!(r, Ok(Kr::NN(vec![Kr::Null, Kr::J(2), Kr::Null, Kr::J(11)])));
    assert_eq!(env.val(&sym("x")), Ok(Kr::J(11)));
}

#[test]
fn an_error_keeps_the_bindings_made_before_it() {
    let (env, r) = line(init(), "[x:1;nothing;x:2]");
    assert_eq!(r, Err(KrEvalError::NotDefined));
    assert_eq!(env.val(&sym("x")), Ok(Kr::J(1)));
}

#[test]
fn the_head_of_an_application_is_evaluated() {
    assert_eq!(value_of("til 3"), Ok(Kr::Jv(vec![0, 1, 2])));
    assert_eq!(value_of("(first) til 3"), Ok(Kr::J(0)));
    let (env, _) = line(init(), "f:last");
    let (_, r) = line(env, "f til 3");
    assert_eq!(r, Ok(Kr::J(2)));
    assert_eq!(value_of("nothing 3"), Err(KrEvalError::NotDefined));
}

#[test]
fn what_is_no_verb_cannot_be_applied() {
    assert_eq!(value_of("1 2"), Err(KrEvalError::NotAVerb));
    assert_eq!(value_of("one 2"), Err(KrEvalError::NotAVerb));
    assert_eq!(value_of("\"f\" 2"), Err(KrEvalError::NotAVerb));
    assert_eq!(value_of("`til 2"), Err(KrEvalError::NotAVerb));
    let (_, r) = Kr::J(1).apply(init(), &[Kr::J(2)], &unit);
    assert_eq!(r, Err(KrEvalError::NotAVerb));
    let (_, r) = Kr::NN(vec![]).apply(init(), &[], &unit);
    assert_eq!(r, Err(KrEvalError::NotAVerb));
}

#[test]
fn a_verb_applies_through_the_value() {
    let (_, r) = op(Op::Addition).apply(init(), &[Kr::J(1), Kr::J(2)], &unit);
    assert_eq!(r, Ok(Kr::J(3)));
    let (_, r) = prim(Prim::Til).apply(init(), &[Kr::J(2)], &unit);
    assert_eq!(r, Ok(Kr::Jv(vec![0, 1])));
}

#[test]
fn the_number_of_arguments_is_checked() {
    let env = init();
    let (env, r) = op(Op::Addition).apply(env, &[Kr::J(1)], &unit);
    assert_eq!(r, Err(KrEvalError::Rank));
    let (env, r) = op(Op::Assign).apply(env, &[sym("x"), Kr::J(1), Kr::J(2)], &unit);
    assert_eq!(r, Err(KrEvalError::Rank));
    assert_eq!(env.val(&sym("x")), Err(KrEvalError::NotDefined));
    let (env, r) = prim(Prim::Til).apply(env, &[Kr::J(1), Kr::J(2)], &unit);
    assert_eq!(r, Err(KrEvalError::Rank));
    let (env, r) = prim(Prim::Value).apply(env, &[], &unit);
    assert_eq!(r, Err(KrEvalError::Rank));
    let ast = Kr::NN(vec![op(Op::Join), Kr::J(1), Kr::J(2), Kr::J(3)]);
    let (_, r) = eval(env, &ast, &unit);
    assert_eq!(r, Err(KrEvalError::Rank));
}

#[test]
fn an_expression_without_assignment_changes_nothing() {
    let texts = ["1+2*3", "(1,2,3)*(4,5,6)", "3e%2e", "1i-5i", "first til 3", "1+1i", "1 2"];
    for t in texts.iter() {
        let (env, first) = line(init(), t);
        let (env, second) = line(env, t);
        assert_eq!(first, second);
        assert_eq!(env.val(&sym("one")), Ok(Kr::J(1)));
        assert_eq!(env.val(&sym("x")), Err(KrEvalError::NotDefined));
    }
}

#[test]
fn whole_lines_render() {
    assert_eq!(shown("1+2"), "3");
    assert_eq!(shown("2*3+4"), "14");
    assert_eq!(shown("(2*3)+4"), "10");
    assert_eq!(shown("10-2-3"), "11");
    assert_eq!(shown("til 5"), "0 1 2 3 4");
    assert_eq!(shown("til 0"), "");
    assert_eq!(shown("last til 5"), "4");
    assert_eq!(shown("(til 3)+til 3"), "0 2 4");
    assert_eq!(shown("1,2,3"), "1 2 3");
    assert_eq!(shown("[1;2;3]"), "1 2 3");
    assert_eq!(shown("[1;`a;\"s\"]"), "[1;`a;\"s\"]");
    assert_eq!(shown("alph"), "\"a\"");
    assert_eq!(shown("\"ab\",\"cd\""), "\"abcd\"");
    assert_eq!(shown("value `two"), "2");
    assert_eq!(shown("til"), "til");
    assert_eq!(shown("+"), "+");
    assert_eq!(shown("`sym"), "`sym");
    assert_eq!(shown("x:1"), "(::)");
}

#[test]
fn whole_lines_with_reals_render() {
    assert_eq!(shown("1e+2e"), "3");
    assert_eq!(shown("1%2"), "0.5");
    assert_eq!(shown("1i%3i"), "0.33333334");
    assert_eq!(shown("1%3"), "0.3333333333333333");
    assert_eq!(shown("3f*2f"), "6");
    assert_eq!(shown("1f%0f"), "inf");
    assert_eq!(shown("0f%0f"), "NaN");
    assert_eq!(shown("(1e,2e)*(3e,4e)"), "3 8");
    assert_eq!(shown("[1f;2f]"), "1 2");
    assert_eq!(shown("first 7e,8e"), "7");
}
