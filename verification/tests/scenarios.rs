use kr::error::KrError;
use kr::error::KrEvalError;
use kr::error::KrParseError;
use kr::eval::eval;
use kr::init::init;
use kr::init::Env;
use kr::kr::Kr;
use kr::lex::lex;
use kr::parse::parse;
use kr::primitive::Prim;
use kr::primitive::Primitive;
use kr::reals::Float;
use kr::reals::Real;
use kr::reals::RealAnswer;
use kr::reals::RealOp;
use kr::reals::RealRequest;

fn digits32(d: Vec<u8>) -> f32 {
    String::from_utf8(d).unwrap().parse::<f32>().unwrap()
}

fn digits64(d: Vec<u8>) -> f64 {
    String::from_utf8(d).unwrap().parse::<f64>().unwrap()
}

fn unit(q: RealRequest) -> RealAnswer {
    match q {
        RealRequest::Literal32(d) => RealAnswer::Single(Real(digits32(d).to_bits())),
        RealRequest::Literal64(d) => RealAnswer::Double(Float(digits64(d).to_bits())),
        RealRequest::Ratio32(x, y) => RealAnswer::Single(Real(((x as f32) / (y as f32)).to_bits())),
        RealRequest::Ratio64(x, y) => RealAnswer::Double(Float(((x as f64) / (y as f64)).to_bits())),
        RealRequest::Arith32(op, x, y) => {
            let (a, b) = (f32::from_bits(x.0), f32::from_bits(y.0));
            let r = match op {
                RealOp::Add => a + b,
                RealOp::Sub => a - b,
                RealOp::Mul => a * b,
                RealOp::Div => a / b,
            };
            RealAnswer::Single(Real(r.to_bits()))
        }
        RealRequest::Arith64(op, x, y) => {
            let (a, b) = (f64::from_bits(x.0), f64::from_bits(y.0));
            let r = match op {
                RealOp::Add => a + b,
                RealOp::Sub => a - b,
                RealOp::Mul => a * b,
                RealOp::Div => a / b,
            };
            RealAnswer::Double(Float(r.to_bits()))
        }
        RealRequest::Show32(x) => RealAnswer::Text(f32::from_bits(x.0).to_string()),
        RealRequest::Show64(x) => RealAnswer::Text(f64::from_bits(x.0).to_string()),
    }
}

/// Runs one line in an environment and renders what comes back.
fn run(env: Env, line: &str) -> (Env, String) {
    let tokens = lex(&line.to_string());
    let ast = match parse(&tokens, &unit) {
        Ok(ast) => ast,
        Err(e) => return (env, KrError::Parse(e).print()),
    };
    let (env, result) = eval(env, &ast, &unit);
    match result {
        Ok(v) => (env, v.print(&unit)),
        Err(e) => (env, KrError::Eval(e).print()),
    }
}

#[test]
fn one_plus_two_is_three() {
    let (_, out) = run(init(), "1+2");
    assert_eq!(out, "3");
}

#[test]
fn assignment_is_seen_by_the_next_line() {
    let (env, out) = run(init(), "x:5");
    assert_eq!(out, "(::)");
    let (_, out) = run(env, "x+1");
    assert_eq!(out, "6");
}

#[test]
fn til_three_counts_from_zero() {
    let (_, out) = run(init(), "til 3");
    assert_eq!(out, "0 1 2");
}

#[test]
fn first_of_an_empty_range_is_zero() {
    let (_, out) = run(init(), "first til 0");
    assert_eq!(out, "0");
}

#[test]
fn an_unbound_name_is_not_defined() {
    let (_, out) = run(init(), "y+1");
    assert_eq!(out, "'E0206: not defined");
}

#[test]
fn first_of_no_argument_is_a_rank_error() {
    let first = Kr::Prim(Primitive::new(Prim::First));
    let (_, r) = first.apply(init(), &[], &unit);
    assert_eq!(r, Err(KrEvalError::Rank));
    assert_eq!(KrError::Eval(KrEvalError::Rank).print(), "'E0203: rank");
}

#[test]
fn first_before_empty_parentheses_does_not_parse() {
    let tokens = lex(&"first()".to_string());
    assert_eq!(parse(&tokens, &unit), Err(KrParseError::UnexpectedRParen));
    let (_, out) = run(init(), "first()");
    assert_eq!(out, "'E0104: unexpected )");
}
