use vstd::prelude::*;
use crate::kr::{Kr, Value, values};
use crate::lex::is_digit;
use crate::operator::{Op, Operator};
use crate::primitive::{Prim, Primitive};
use crate::reals::{
    RealAnswer, RealRequest, Request, Unit, ask_double, ask_single, double, single, unit_model,
    unit_ok,
};
use crate::text::Text;

verus! {

/// `+`
pub const PLUS: u8 = 0x2b;

/// `-`
pub const MINUS: u8 = 0x2d;

/// `*`
pub const STAR: u8 = 0x2a;

/// `%`
pub const PERCENT: u8 = 0x25;

/// `:`
pub const COLON: u8 = 0x3a;

/// `,`
pub const COMMA: u8 = 0x2c;

/// The double quote.
pub const QUOTE: u8 = 0x22;

/// The backtick.
pub const BACKTICK: u8 = 0x60;

/// `(`
pub const LPAREN: u8 = 0x28;

/// `)`
pub const RPAREN: u8 = 0x29;

/// `[`
pub const LBRACKET: u8 = 0x5b;

/// `]`
pub const RBRACKET: u8 = 0x5d;

/// `;`
pub const SEMICOLON: u8 = 0x3b;

/// The space.
pub const SPACE: u8 = 0x20;

/// `0`
pub const DIGIT_ZERO: u8 = 0x30;

/// `9`
pub const DIGIT_NINE: u8 = 0x39;

/// `A`
pub const UPPER_A: u8 = 0x41;

/// `Z`
pub const UPPER_Z: u8 = 0x5a;

/// `a`
pub const LOWER_A: u8 = 0x61;

/// `z`
pub const LOWER_Z: u8 = 0x7a;

/// Whether a byte is one of the six operator characters.
pub open spec fn is_operator_byte(c: u8) -> bool {
    c == PLUS || c == MINUS || c == STAR || c == PERCENT || c == COLON || c == COMMA
}

/// The operator that an operator character stands for.
pub open spec fn operator_of(c: u8) -> Op {
    if c == PLUS {
        Op::Addition
    } else if c == MINUS {
        Op::Subtraction
    } else if c == STAR {
        Op::Multiplication
    } else if c == PERCENT {
        Op::Division
    } else if c == COLON {
        Op::Assign
    } else {
        Op::Join
    }
}

/// A run of letters that names a variable or a built-in.
#[derive(Eq, Hash, PartialEq, Debug)]
pub struct NameToken(Text);

/// A run of digits, with or without a letter that names the family.
#[derive(Debug, PartialEq)]
pub struct NumberToken(Text);

/// What stood between two double quotes.
#[derive(Debug, PartialEq)]
pub struct QuotedToken(Text);

/// The letters that followed a backtick.
#[derive(Debug, PartialEq)]
pub struct SymbolToken(Text);

/// One operator character and the operator it stands for.
#[derive(Debug, PartialEq)]
pub struct OperatorToken {
    text: Text,
    op: Op,
}

/// The tokens that stand for a value.
#[derive(Debug, PartialEq)]
pub enum KrToken {
    Name(NameToken),
    Operator(OperatorToken),
    Number(NumberToken),
    Quoted(QuotedToken),
    Symbol(SymbolToken),
}

/// A lexical unit.
#[derive(Debug, PartialEq)]
pub enum Token {
    KrToken(KrToken),
    LParen,
    RParen,
    LBracket,
    RBracket,
    SemiColon,
}

/// A `KrToken` as a mathematical value: its kind and its text.
pub enum KrLexeme {
    Name(Seq<u8>),
    Operator(Seq<u8>, Op),
    Number(Seq<u8>),
    Quoted(Seq<u8>),
    Symbol(Seq<u8>),
}

/// A `Token` as a mathematical value.
pub enum Lexeme {
    KrToken(KrLexeme),
    LParen,
    RParen,
    LBracket,
    RBracket,
    SemiColon,
}

impl View for NameToken {
    type V = Seq<u8>;

    closed spec fn view(&self) -> Seq<u8> {
        self.0@
    }
}

impl View for NumberToken {
    type V = Seq<u8>;

    closed spec fn view(&self) -> Seq<u8> {
        self.0@
    }
}

impl View for QuotedToken {
    type V = Seq<u8>;

    closed spec fn view(&self) -> Seq<u8> {
        self.0@
    }
}

impl View for SymbolToken {
    type V = Seq<u8>;

    closed spec fn view(&self) -> Seq<u8> {
        self.0@
    }
}

impl View for OperatorToken {
    type V = (Seq<u8>, Op);

    closed spec fn view(&self) -> (Seq<u8>, Op) {
        (self.text@, self.op)
    }
}

impl View for KrToken {
    type V = KrLexeme;

    open spec fn view(&self) -> KrLexeme {
        match self {
            KrToken::Name(t) => KrLexeme::Name(t@),
            KrToken::Operator(t) => KrLexeme::Operator(t@.0, t@.1),
            KrToken::Number(t) => KrLexeme::Number(t@),
            KrToken::Quoted(t) => KrLexeme::Quoted(t@),
            KrToken::Symbol(t) => KrLexeme::Symbol(t@),
        }
    }
}

impl View for Token {
    type V = Lexeme;

    open spec fn view(&self) -> Lexeme {
        match self {
            Token::KrToken(t) => Lexeme::KrToken(t@),
            Token::LParen => Lexeme::LParen,
            Token::RParen => Lexeme::RParen,
            Token::LBracket => Lexeme::LBracket,
            Token::RBracket => Lexeme::RBracket,
            Token::SemiColon => Lexeme::SemiColon,
        }
    }
}

impl Clone for NameToken {
    fn clone(&self) -> (r: Self)
        ensures
            r@ == self@,
    {
        NameToken(self.0.clone())
    }
}

impl Clone for NumberToken {
    fn clone(&self) -> (r: Self)
        ensures
            r@ == self@,
    {
        NumberToken(self.0.clone())
    }
}

impl Clone for QuotedToken {
    fn clone(&self) -> (r: Self)
        ensures
            r@ == self@,
    {
        QuotedToken(self.0.clone())
    }
}

impl Clone for SymbolToken {
    fn clone(&self) -> (r: Self)
        ensures
            r@ == self@,
    {
        SymbolToken(self.0.clone())
    }
}

impl Clone for OperatorToken {
    fn clone(&self) -> (r: Self)
        ensures
            r@ == self@,
    {
        OperatorToken { text: self.text.clone(), op: self.op }
    }
}

impl Clone for KrToken {
    fn clone(&self) -> (r: Self)
        ensures
            r@ == self@,
    {
        match self {
            KrToken::Name(t) => KrToken::Name(t.clone()),
            KrToken::Operator(t) => KrToken::Operator(t.clone()),
            KrToken::Number(t) => KrToken::Number(t.clone()),
            KrToken::Quoted(t) => KrToken::Quoted(t.clone()),
            KrToken::Symbol(t) => KrToken::Symbol(t.clone()),
        }
    }
}

impl Clone for Token {
    fn clone(&self) -> (r: Self)
        ensures
            r@ == self@,
    {
        match self {
            Token::KrToken(t) => Token::KrToken(t.clone()),
            Token::LParen => Token::LParen,
            Token::RParen => Token::RParen,
            Token::LBracket => Token::LBracket,
            Token::RBracket => Token::RBracket,
            Token::SemiColon => Token::SemiColon,
        }
    }
}

/// The lexemes of a run of tokens, one for one.
pub open spec fn lexemes(tokens: Seq<Token>) -> Seq<Lexeme> {
    tokens.map_values(|t: Token| t@)
}

/// `e`, for a 32-bit real.
pub const FAMILY_E: u8 = 0x65;

/// `f`, for a 64-bit float.
pub const FAMILY_F: u8 = 0x66;

/// `i`, for a 32-bit integer.
pub const FAMILY_I: u8 = 0x69;

/// `j`, for a 64-bit integer.
pub const FAMILY_J: u8 = 0x6a;

/// Whether every byte is an ASCII digit.
pub open spec fn all_digits(d: Seq<u8>) -> bool {
    forall|k: int| 0 <= k < d.len() ==> is_digit(#[trigger] d[k])
}

/// The number that a run of decimal digits writes.
pub open spec fn digits_value(d: Seq<u8>) -> nat
    decreases d.len(),
{
    if d.len() == 0 {
        0
    } else {
        digits_value(d.drop_last()) * 10 + (d.last() - DIGIT_ZERO) as nat
    }
}

/// The digits of a number literal: all of it where it ends in a digit, else
/// all but its last byte.
pub open spec fn literal_digits(text: Seq<u8>) -> Seq<u8> {
    if text.len() > 0 && !is_digit(text.last()) {
        text.drop_last()
    } else {
        text
    }
}

/// The family letter of a number literal: its last byte, or `j` where it
/// ends in a digit.
pub open spec fn literal_family(text: Seq<u8>) -> u8 {
    if text.len() > 0 && !is_digit(text.last()) {
        text.last()
    } else {
        FAMILY_J
    }
}

/// The value of a number literal. A literal with no digits, with a byte among
/// its digits that is none, with another letter than `e f i j` behind them,
/// or with an integer that its family cannot hold, has the value null.
pub open spec fn number_value(unit: Unit, text: Seq<u8>) -> Value {
    let digits = literal_digits(text);
    let family = literal_family(text);
    if digits.len() == 0 || !all_digits(digits) {
        Value::Null
    } else if family == FAMILY_I {
        if digits_value(digits) <= i32::MAX {
            Value::I(digits_value(digits) as i32)
        } else {
            Value::Null
        }
    } else if family == FAMILY_J {
        if digits_value(digits) <= i64::MAX {
            Value::J(digits_value(digits) as i64)
        } else {
            Value::Null
        }
    } else if family == FAMILY_E {
        Value::E(single(unit(Request::Literal32(digits))))
    } else if family == FAMILY_F {
        Value::F(double(unit(Request::Literal64(digits))))
    } else {
        Value::Null
    }
}

/// The node that a name parses into: the lookup of its symbol.
pub open spec fn reference(name: Seq<u8>) -> Value {
    Value::NN(seq![Value::Prim(Prim::Value), Value::S(name)])
}

/// The value that a token stands for.
pub open spec fn token_value(unit: Unit, token: KrLexeme) -> Value {
    match token {
        KrLexeme::Name(name) => reference(name),
        KrLexeme::Operator(_, op) => Value::Op(op),
        KrLexeme::Number(text) => number_value(unit, text),
        KrLexeme::Quoted(text) => Value::Cv(text),
        KrLexeme::Symbol(name) => Value::S(name),
    }
}

/// A longer run of digits writes no smaller a number.
pub proof fn lemma_digits_value_grows(d: Seq<u8>, n: int)
    requires
        0 <= n <= d.len(),
        all_digits(d),
    ensures
        digits_value(d.take(n)) <= digits_value(d),
    decreases d.len() - n,
{
    if n < d.len() {
        lemma_digits_value_grows(d, n + 1);
        assert(d.take(n + 1).drop_last() =~= d.take(n));
    } else {
        assert(d.take(n) =~= d);
    }
}

fn check_digits(d: &Vec<u8>) -> (r: bool)
    ensures
        r == all_digits(d@),
{
    let mut i: usize = 0;
    while i < d.len()
        invariant
            i <= d.len(),
            forall|k: int| 0 <= k < i ==> is_digit(#[trigger] d@[k]),
        decreases d.len() - i,
    {
        if !(DIGIT_ZERO <= d[i] && d[i] <= DIGIT_NINE) {
            return false;
        }
        i = i + 1;
    }
    true
}

/// The number that the digits write, where it is at most `limit`.
fn bounded_value(d: &Vec<u8>, limit: u64) -> (r: Option<u64>)
    requires
        all_digits(d@),
    ensures
        digits_value(d@) <= limit ==> r == Some(digits_value(d@) as u64),
        digits_value(d@) > limit ==> r.is_none(),
{
    let mut acc: u64 = 0;
    let mut i: usize = 0;
    while i < d.len()
        invariant
            i <= d.len(),
            all_digits(d@),
            acc <= limit,
            acc == digits_value(d@.take(i as int)),
        decreases d.len() - i,
    {
        let digit: u64 = (d[i] - DIGIT_ZERO) as u64;
        proof {
            assert(d@.take(i + 1).drop_last() =~= d@.take(i as int));
            lemma_digits_value_grows(d@, i + 1);
        }
        if digit > limit || acc > (limit - digit) / 10 {
            return None;
        }
        acc = acc * 10 + digit;
        i = i + 1;
    }
    assert(d@.take(i as int) =~= d@);
    Some(acc)
}

impl NameToken {
    /// A name token of the given text.
    pub fn new(text: Text) -> (r: Self)
        ensures
            r@ == text@,
    {
        NameToken(text)
    }

    /// The lookup of the name's symbol, element by element.
    pub fn parse(&self) -> (r: Vec<Kr>)
        ensures
            Value::NN(values(r@)) == reference(self@),
    {
        let r = vec![Kr::Prim(Primitive::new(Prim::Value)), Kr::S(self.0.clone())];
        assert(values(r@) =~= seq![Value::Prim(Prim::Value), Value::S(self@)]);
        r
    }
}

impl NumberToken {
    /// A number token of the given text.
    pub fn new(text: Text) -> (r: Self)
        ensures
            r@ == text@,
    {
        NumberToken(text)
    }

    /// The value of the literal; the unit reads the digits of a real one.
    pub fn parse<U: Fn(RealRequest) -> RealAnswer>(&self, unit: &U) -> (r: Kr)
        requires
            unit_ok(*unit),
        ensures
            r@ == number_value(unit_model(*unit), self@),
    {
        let n = self.0.len();
        let mut digits = self.0.0.clone();
        let mut family = FAMILY_J;
        if n > 0 {
            let last = self.0.0[n - 1];
            if !(DIGIT_ZERO <= last && last <= DIGIT_NINE) {
                family = last;
                digits.truncate(n - 1);
            }
        }
        if digits.len() == 0 || !check_digits(&digits) {
            Kr::Null
        } else if family == FAMILY_I {
            match bounded_value(&digits, 0x7fff_ffff) {
                Some(v) => Kr::I(v as i32),
                None => Kr::Null,
            }
        } else if family == FAMILY_J {
            match bounded_value(&digits, 0x7fff_ffff_ffff_ffff) {
                Some(v) => Kr::J(v as i64),
                None => Kr::Null,
            }
        } else if family == FAMILY_E {
            Kr::E(ask_single(unit, RealRequest::Literal32(digits)))
        } else if family == FAMILY_F {
            Kr::F(ask_double(unit, RealRequest::Literal64(digits)))
        } else {
            Kr::Null
        }
    }
}

impl QuotedToken {
    /// A quoted token of the text between the quotes.
    pub fn new(text: Text) -> (r: Self)
        ensures
            r@ == text@,
    {
        QuotedToken(text)
    }

    /// The characters between the quotes, as they stand.
    pub fn parse(&self) -> (r: Vec<u8>)
        ensures
            r@ == self@,
    {
        self.0.0.clone()
    }
}

impl SymbolToken {
    /// A symbol token of the given name.
    pub fn new(text: Text) -> (r: Self)
        ensures
            r@ == text@,
    {
        SymbolToken(text)
    }

    /// The name of the symbol.
    pub fn parse(&self) -> (r: Text)
        ensures
            r@ == self@,
    {
        self.0.clone()
    }
}

impl OperatorToken {
    /// The token of one operator character.
    pub fn new(text: Text) -> (r: Self)
        requires
            text@.len() == 1,
            is_operator_byte(text@[0]),
        ensures
            r@ == (text@, operator_of(text@[0])),
    {
        let c = text.0[0];
        let op = if c == PLUS {
            Op::Addition
        } else if c == MINUS {
            Op::Subtraction
        } else if c == STAR {
            Op::Multiplication
        } else if c == PERCENT {
            Op::Division
        } else if c == COLON {
            Op::Assign
        } else {
            Op::Join
        };
        OperatorToken { text, op }
    }

    /// The operator as a value.
    pub fn parse(&self) -> (r: Operator)
        ensures
            r@ == self@.1,
    {
        Operator::new(self.op)
    }
}

impl KrToken {
    /// The value that the token stands for.
    pub fn parse<U: Fn(RealRequest) -> RealAnswer>(&self, unit: &U) -> (r: Kr)
        requires
            unit_ok(*unit),
        ensures
            r@ == token_value(unit_model(*unit), self@),
    {
        match self {
            KrToken::Name(name) => Kr::NN(name.parse()),
            KrToken::Operator(op) => Kr::Op(op.parse()),
            KrToken::Number(num) => num.parse(unit),
            KrToken::Quoted(s) => Kr::Cv(s.parse()),
            KrToken::Symbol(s) => Kr::S(s.parse()),
        }
    }

    /// The text that the token was cut from.
    pub open spec fn text(self) -> Seq<u8> {
        match self@ {
            KrLexeme::Name(t) => t,
            KrLexeme::Operator(t, _) => t,
            KrLexeme::Number(t) => t,
            KrLexeme::Quoted(t) => t,
            KrLexeme::Symbol(t) => t,
        }
    }

    /// The text that the token was cut from.
    pub fn get_text(&self) -> (r: &Text)
        ensures
            r@ == self.text(),
    {
        match self {
            KrToken::Name(name) => &name.0,
            KrToken::Operator(op) => &op.text,
            KrToken::Number(num) => &num.0,
            KrToken::Quoted(s) => &s.0,
            KrToken::Symbol(s) => &s.0,
        }
    }

    /// The text of the token as a string.
    pub fn as_string(&self) -> (r: String)
        ensures
            r@ == crate::text::lossy_text(self.text()),
    {
        self.get_text().to_string()
    }
}

impl Token {
    /// The text of a token: that of a value token as it was cut, and the one
    /// character of a structural token.
    pub open spec fn shown(self) -> Seq<char> {
        match self {
            Token::KrToken(t) => crate::text::lossy_text(t.text()),
            Token::LParen => "("@,
            Token::RParen => ")"@,
            Token::LBracket => "["@,
            Token::RBracket => "]"@,
            Token::SemiColon => ";"@,
        }
    }

    /// The text of the token as a string.
    pub fn as_string(&self) -> (r: String)
        ensures
            r@ == self.shown(),
    {
        match self {
            Token::KrToken(t) => t.as_string(),
            Token::LParen => "(".to_string(),
            Token::RParen => ")".to_string(),
            Token::LBracket => "[".to_string(),
            Token::RBracket => "]".to_string(),
            Token::SemiColon => ";".to_string(),
        }
    }
}

} // verus!
