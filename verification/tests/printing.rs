use kr::kr::vec_to_string;
use kr::kr::Kr;
use kr::operator::Op;
use kr::operator::Operator;
use kr::primitive::Prim;
use kr::primitive::Primitive;
use kr::reals::Float;
use kr::reals::Real;
use kr::reals::RealAnswer;
use kr::reals::RealOp;
use kr::reals::RealRequest;
use kr::text::Text;

fn digits32(d: Vec<u8>) -> f32 {
    String::from_utf8(d).unwrap().parse::<f32>().unwrap()
}

fn digits64(d: Vec<u8>) -> f64 {
    String::from_utf8(d).unwrap().parse::<f64>().unwrap()
}

fn arith32(op: RealOp, a: f32, b: f32) -> f32 {
    match op {
        RealOp::Add => a + b,
        RealOp::Sub => a - b,
        RealOp::Mul => a * b,
        RealOp::Div => a / b,
    }
}

fn arith64(op: RealOp, a: f64, b: f64) -> f64 {
    match op {
        RealOp::Add => a + b,
        RealOp::Sub => a - b,
        RealOp::Mul => a * b,
        RealOp::Div => a / b,
    }
}

fn unit(q: RealRequest) -> RealAnswer {
    match q {
        RealRequest::Literal32(d) => RealAnswer::Single(Real(digits32(d).to_bits())),
        RealRequest::Literal64(d) => RealAnswer::Double(Float(digits64(d).to_bits())),
        RealRequest::Ratio32(x, y) => RealAnswer::Single(Real(((x as f32) / (y as f32)).to_bits())),
        RealRequest::Ratio64(x, y) => RealAnswer::Double(Float(((x as f64) / (y as f64)).to_bits())),
        RealRequest::Arith32(op, x, y) => {
            RealAnswer::Single(Real(arith32(op, f32::from_bits(x.0), f32::from_bits(y.0)).to_bits()))
        }
        RealRequest::Arith64(op, x, y) => {
            RealAnswer::Double(Float(arith64(op, f64::from_bits(x.0), f64::from_bits(y.0)).to_bits()))
        }
        RealRequest::Show32(x) => RealAnswer::Text(f32::from_bits(x.0).to_string()),
        RealRequest::Show64(x) => RealAnswer::Text(f64::from_bits(x.0).to_string()),
    }
}

fn single(x: f32) -> Real {
    Real(x.to_bits())
}

fn double(x: f64) -> Float {
    Float(x.to_bits())
}

fn shown(v: Kr) -> String {
    v.print(&unit)
}

#[test]
fn integers_print_in_decimal() {
    assert_eq!(shown(Kr::I(0)), "0");
    assert_eq!(shown(Kr::I(-5)), "-5");
    assert_eq!(shown(Kr::I(i32::MAX)), "2147483647");
    assert_eq!(shown(Kr::I(i32::MIN)), "-2147483648");
    assert_eq!(shown(Kr::J(1234567890123)), "1234567890123");
    assert_eq!(shown(Kr::J(i64::MIN)), "-9223372036854775808");
}

#[test]
fn reals_print_as_the_unit_writes_them() {
    assert_eq!(shown(Kr::E(single(1.5))), "1.5");
    assert_eq!(shown(Kr::E(single(3.0))), "3");
    assert_eq!(shown(Kr::E(single(0.1))), "0.1");
    assert_eq!(shown(Kr::F(double(0.1))), "0.1");
    assert_eq!(shown(Kr::F(double(-2.25))), "-2.25");
    assert_eq!(shown(Kr::F(double(1e21))), "1000000000000000000000");
    assert_eq!(shown(Kr::F(double(f64::NAN))), "NaN");
    assert_eq!(shown(Kr::E(single(f32::NEG_INFINITY))), "-inf");
}

#[test]
fn vectors_print_with_spaces_between() {
    assert_eq!(shown(Kr::Iv(vec![1, -2, 3])), "1 -2 3");
    assert_eq!(shown(Kr::Iv(vec![7])), "7");
    assert_eq!(shown(Kr::Iv(vec![])), "");
    assert_eq!(shown(Kr::Jv(vec![10, 20])), "10 20");
    assert_eq!(shown(Kr::Jv(vec![])), "");
    assert_eq!(shown(Kr::Ev(vec![single(0.5), single(2.0)])), "0.5 2");
    assert_eq!(shown(Kr::Ev(vec![])), "");
    assert_eq!(shown(Kr::Fv(vec![double(0.25), double(-1.0), double(1e-7)])), "0.25 -1 0.0000001");
    assert_eq!(shown(Kr::Fv(vec![])), "");
}

#[test]
fn characters_print_between_quotes() {
    assert_eq!(shown(Kr::C(0x61)), "\"a\"");
    assert_eq!(shown(Kr::C(0x20)), "\" \"");
    assert_eq!(shown(Kr::Cv(vec![0x68, 0x69])), "\"hi\"");
    assert_eq!(shown(Kr::Cv(vec![])), "\"\"");
    assert_eq!(shown(Kr::Cv(vec![0xc3, 0xa9])), "\"\u{e9}\"");
}

#[test]
fn malformed_characters_print_as_the_replacement_character() {
    assert_eq!(shown(Kr::C(0xff)), "\"\u{fffd}\"");
    assert_eq!(shown(Kr::Cv(vec![0x61, 0x80, 0x62])), "\"a\u{fffd}b\"");
    assert_eq!(shown(Kr::S(Text::new(vec![0xfe]))), "`\u{fffd}");
}

#[test]
fn symbols_print_behind_a_backtick() {
    assert_eq!(shown(Kr::S(Text::from_str("abc"))), "`abc");
    assert_eq!(shown(Kr::S(Text::from_str(""))), "`");
}

#[test]
fn null_prints_as_its_marker() {
    assert_eq!(shown(Kr::Null), "(::)");
}

#[test]
fn callables_print_as_their_text() {
    assert_eq!(shown(Kr::Op(Operator::new(Op::Addition))), "+");
    assert_eq!(shown(Kr::Op(Operator::new(Op::Division))), "%");
    assert_eq!(shown(Kr::Op(Operator::new(Op::Assign))), ":");
    assert_eq!(shown(Kr::Prim(Primitive::new(Prim::Til))), "til");
    assert_eq!(shown(Kr::Prim(Primitive::new(Prim::Enlist))), "enlist");
}

#[test]
fn generic_lists_print_between_brackets() {
    assert_eq!(shown(Kr::NN(vec![])), "[]");
    assert_eq!(shown(Kr::NN(vec![Kr::J(1)])), "[1]");
    assert_eq!(shown(Kr::NN(vec![Kr::J(1), Kr::Null])), "[1;(::)]");
    assert_eq!(
        shown(Kr::NN(vec![
            Kr::Jv(vec![1, 2]),
            Kr::NN(vec![Kr::NN(vec![]), Kr::Cv(vec![0x78])]),
            Kr::S(Text::from_str("s")),
            Kr::E(single(0.5)),
        ])),
        "[1 2;[[];\"x\"];`s;0.5]"
    );
    assert_eq!(
        shown(Kr::NN(vec![Kr::Op(Operator::new(Op::Addition)), Kr::J(1), Kr::J(2)])),
        "[+;1;2]"
    );
}

#[test]
fn vec_to_string_joins_its_items() {
    let items = vec!["a".to_string(), "bc".to_string(), "".to_string(), "d".to_string()];
    assert_eq!(vec_to_string(&items, ", ", "<", ">"), "<a, bc, , d>");
    assert_eq!(vec_to_string(&items, "", "", ""), "abcd");
    assert_eq!(vec_to_string(&vec!["only".to_string()], ";", "[", "]"), "[only]");
    assert_eq!(vec_to_string(&Vec::new(), ";", "[", "]"), "[]");
    assert_eq!(vec_to_string(&Vec::new(), " ", "", ""), "");
}

#[test]
fn a_cloned_value_is_equal() {
    let v = Kr::NN(vec![
        Kr::I(1),
        Kr::Iv(vec![1]),
        Kr::J(2),
        Kr::Jv(vec![2]),
        Kr::E(single(1.0)),
        Kr::Ev(vec![single(1.0)]),
        Kr::F(double(1.0)),
        Kr::Fv(vec![double(1.0)]),
        Kr::C(1),
        Kr::Cv(vec![1]),
        Kr::S(Text::from_str("s")),
        Kr::Op(Operator::new(Op::Join)),
        Kr::Prim(Primitive::new(Prim::Last)),
        Kr::Null,
        Kr::NN(vec![Kr::NN(vec![Kr::Null])]),
    ]);
    assert_eq!(v.clone(), v);
    assert_eq!(shown(v.clone()), shown(v));
}
