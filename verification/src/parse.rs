use vstd::prelude::*;
use vstd::utf8::encode_utf8;
use crate::error::KrParseError;
use crate::kr::{Kr, Value, lemma_values_push, values};
use crate::lex::{lex, lex_spec};
use crate::primitive::{Prim, Primitive};
use crate::reals::{RealAnswer, RealRequest, Unit, unit_model, unit_ok};
use crate::token::{KrLexeme, KrToken, Lexeme, Token, lexemes, token_value};

verus! {

// The grammar:
//
//   expr := term operator expr
//         | term expr
//         | term
//   term := a value token
//         | ( expr )
//         | [ expr { ; expr } ]
//
// It recurses to the right, so that `a op b op c` is `a op (b op c)`.

/// The expression that starts at token `i`, and where it ends: a term alone,
/// or a term applied, with or without an operator between, to the expression
/// that follows it.
pub open spec fn parse_expr_spec(unit: Unit, t: Seq<Lexeme>, i: int) -> Result<
    (Value, int),
    KrParseError,
>
    decreases t.len() - i, 2int,
{
    match parse_term_spec(unit, t, i) {
        Err(e) => Err(e),
        Ok((term, j)) => {
            if i < j < t.len() {
                match t[j] {
                    Lexeme::KrToken(KrLexeme::Operator(_, op)) => {
                        match parse_expr_spec(unit, t, j + 1) {
                            Err(e) => Err(e),
                            Ok((expr, k)) => Ok((Value::NN(seq![Value::Op(op), term, expr]), k)),
                        }
                    },
                    Lexeme::KrToken(_) | Lexeme::LParen | Lexeme::LBracket => {
                        match parse_expr_spec(unit, t, j) {
                            Err(e) => Err(e),
                            Ok((expr, k)) => Ok((Value::NN(seq![term, expr]), k)),
                        }
                    },
                    Lexeme::RParen | Lexeme::RBracket | Lexeme::SemiColon => Ok((term, j)),
                }
            } else {
                Ok((term, j))
            }
        },
    }
}

/// The term that starts at token `i`, and where it ends.
pub open spec fn parse_term_spec(unit: Unit, t: Seq<Lexeme>, i: int) -> Result<
    (Value, int),
    KrParseError,
>
    decreases t.len() - i, 1int,
{
    if 0 <= i < t.len() {
        match t[i] {
            Lexeme::KrToken(token) => Ok((token_value(unit, token), i + 1)),
            Lexeme::LParen => {
                match parse_expr_spec(unit, t, i + 1) {
                    Err(e) => Err(e),
                    Ok((expr, k)) => {
                        if 0 <= k < t.len() && t[k] is RParen {
                            Ok((expr, k + 1))
                        } else {
                            Err(KrParseError::MissingRParen)
                        }
                    },
                }
            },
            Lexeme::RParen => Err(KrParseError::UnexpectedRParen),
            Lexeme::LBracket => {
                match parse_items_spec(unit, t, i + 1) {
                    Err(e) => Err(e),
                    Ok((items, k)) => {
                        if 0 <= k < t.len() && t[k] is RBracket {
                            Ok((Value::NN(seq![Value::Prim(Prim::Enlist)] + items), k + 1))
                        } else {
                            Err(KrParseError::MissingRBracket)
                        }
                    },
                }
            },
            Lexeme::RBracket => Err(KrParseError::UnexpectedRBracket),
            Lexeme::SemiColon => Err(KrParseError::UnexpectedSemiColon),
        }
    } else {
        Err(KrParseError::UnexpectedEOF)
    }
}

/// The expressions of a bracket list from token `i` on, which semicolons
/// part, and where the last of them ends.
pub open spec fn parse_items_spec(unit: Unit, t: Seq<Lexeme>, i: int) -> Result<
    (Seq<Value>, int),
    KrParseError,
>
    decreases t.len() - i, 3int,
{
    match parse_expr_spec(unit, t, i) {
        Err(e) => Err(e),
        Ok((expr, k)) => {
            if i < k < t.len() && t[k] is SemiColon {
                match parse_items_spec(unit, t, k + 1) {
                    Err(e) => Err(e),
                    Ok((rest, m)) => Ok((seq![expr] + rest, m)),
                }
            } else {
                Ok((seq![expr], k))
            }
        },
    }
}

/// The expression that a token sequence writes: null for no tokens at all,
/// else the one expression that takes every token.
pub open spec fn parse_spec(unit: Unit, t: Seq<Lexeme>) -> Result<Value, KrParseError> {
    if t.len() == 0 {
        Ok(Value::Null)
    } else {
        match parse_expr_spec(unit, t, 0) {
            Err(e) => Err(e),
            Ok((expr, n)) => {
                if n == t.len() {
                    Ok(expr)
                } else {
                    Err(KrParseError::IncompleteParse)
                }
            },
        }
    }
}

/// A term takes at least one token, and so does an expression; neither
/// reaches past the last token.
pub proof fn lemma_parse_advances(unit: Unit, t: Seq<Lexeme>, i: int)
    ensures
        parse_term_spec(unit, t, i) matches Ok((_, j)) ==> i < j <= t.len(),
        parse_expr_spec(unit, t, i) matches Ok((_, j)) ==> i < j <= t.len(),
        parse_items_spec(unit, t, i) matches Ok((_, j)) ==> i < j <= t.len(),
    decreases t.len() - i,
{
    if 0 <= i < t.len() {
        lemma_parse_advances(unit, t, i + 1);
        match parse_term_spec(unit, t, i) {
            Ok((_, j)) => {
                if i < j < t.len() {
                    lemma_parse_advances(unit, t, j);
                    lemma_parse_advances(unit, t, j + 1);
                }
            },
            Err(_) => {},
        }
    }
}

/// `done`, then what `rest` holds.
pub open spec fn items_after(done: Seq<Value>, rest: Result<(Seq<Value>, int), KrParseError>)
    -> Result<(Seq<Value>, int), KrParseError> {
    match rest {
        Err(e) => Err(e),
        Ok((items, k)) => Ok((done + items, k)),
    }
}

fn pair(a: Kr, b: Kr) -> (r: Kr)
    ensures
        r@ == Value::NN(seq![a@, b@]),
{
    let v = vec![a, b];
    assert(values(v@) =~= seq![a@, b@]);
    Kr::NN(v)
}

fn triple(a: Kr, b: Kr, c: Kr) -> (r: Kr)
    ensures
        r@ == Value::NN(seq![a@, b@, c@]),
{
    let v = vec![a, b, c];
    assert(values(v@) =~= seq![a@, b@, c@]);
    Kr::NN(v)
}

/// Reads the one expression that the tokens write.
pub fn parse<U: Fn(RealRequest) -> RealAnswer>(tokens: &[Token], unit: &U) -> (r: Result<
    Kr,
    KrParseError,
>)
    requires
        unit_ok(*unit),
    ensures
        match r {
            Ok(expr) => parse_spec(unit_model(*unit), lexemes(tokens@)) == Ok::<
                Value,
                KrParseError,
            >(expr@),
            Err(e) => parse_spec(unit_model(*unit), lexemes(tokens@)) == Err::<
                Value,
                KrParseError,
            >(e),
        },
{
    if tokens.len() == 0 {
        return Ok(Kr::Null);
    }
    match parse_expr(tokens, 0, unit) {
        Err(e) => Err(e),
        Ok((res, n)) => {
            if n == tokens.len() {
                Ok(res)
            } else {
                Err(KrParseError::IncompleteParse)
            }
        },
    }
}

/// Reads the expression that a text writes: its tokens, then the one
/// expression that they make. The outcome is a function of the text and the
/// unit alone, and every text has one: an expression, or one of the seven
/// parse errors.
pub fn parse_text<U: Fn(RealRequest) -> RealAnswer>(text: &String, unit: &U) -> (r: Result<
    Kr,
    KrParseError,
>)
    requires
        unit_ok(*unit),
    ensures
        match r {
            Ok(expr) => parse_spec(unit_model(*unit), lex_spec(encode_utf8(text@))) == Ok::<
                Value,
                KrParseError,
            >(expr@),
            Err(e) => parse_spec(unit_model(*unit), lex_spec(encode_utf8(text@))) == Err::<
                Value,
                KrParseError,
            >(e),
        },
{
    let tokens = lex(text);
    parse(tokens.as_slice(), unit)
}

/// Reading is total: whatever the text, its tokens make an expression or
/// one of the seven parse errors, whose codes lie in 101..=107. And it is a
/// function of the text: equal texts give equal outcomes.
pub proof fn lemma_reading_is_total(unit: Unit, a: Seq<u8>, b: Seq<u8>)
    ensures
        parse_spec(unit, lex_spec(a)) matches Err(e) ==> 101 <= e.number() <= 107,
        a == b ==> parse_spec(unit, lex_spec(a)) == parse_spec(unit, lex_spec(b)),
{
}

/// The outcome of an exec parse step, held against that of its model.
pub open spec fn step_agrees(
    r: Result<(Kr, usize), KrParseError>,
    model: Result<(Value, int), KrParseError>,
) -> bool {
    match r {
        Ok((expr, k)) => model == Ok::<(Value, int), KrParseError>((expr@, k as int)),
        Err(e) => model == Err::<(Value, int), KrParseError>(e),
    }
}

/// Reads the expression that starts at token `i`, and says where it ends.
pub fn parse_expr<U: Fn(RealRequest) -> RealAnswer>(tokens: &[Token], i: usize, unit: &U) -> (r:
    Result<(Kr, usize), KrParseError>)
    requires
        unit_ok(*unit),
    ensures
        step_agrees(r, parse_expr_spec(unit_model(*unit), lexemes(tokens@), i as int)),
        r matches Ok((_, k)) ==> i < k <= tokens@.len(),
    decreases tokens@.len() - i, 2int,
{
    let (term, j) = match parse_term(tokens, i, unit) {
        Err(e) => {
            return Err(e);
        },
        Ok(p) => p,
    };
    if j < tokens.len() {
        match &tokens[j] {
            Token::KrToken(KrToken::Operator(op)) => {
                match parse_expr(tokens, j + 1, unit) {
                    Err(e) => Err(e),
                    Ok((expr, k)) => Ok((triple(Kr::Op(op.parse()), term, expr), k)),
                }
            },
            Token::KrToken(_) | Token::LParen | Token::LBracket => {
                match parse_expr(tokens, j, unit) {
                    Err(e) => Err(e),
                    Ok((expr, k)) => Ok((pair(term, expr), k)),
                }
            },
            Token::RParen | Token::RBracket | Token::SemiColon => Ok((term, j)),
        }
    } else {
        Ok((term, j))
    }
}

/// Reads the term that starts at token `i`, and says where it ends.
pub fn parse_term<U: Fn(RealRequest) -> RealAnswer>(tokens: &[Token], i: usize, unit: &U) -> (r:
    Result<(Kr, usize), KrParseError>)
    requires
        unit_ok(*unit),
    ensures
        step_agrees(r, parse_term_spec(unit_model(*unit), lexemes(tokens@), i as int)),
        r matches Ok((_, k)) ==> i < k <= tokens@.len(),
    decreases tokens@.len() - i, 1int,
{
    let ghost t = lexemes(tokens@);
    let ghost um = unit_model(*unit);
    if i >= tokens.len() {
        return Err(KrParseError::UnexpectedEOF);
    }
    match &tokens[i] {
        Token::KrToken(kr) => Ok((kr.parse(unit), i + 1)),
        Token::LParen => {
            match parse_expr(tokens, i + 1, unit) {
                Err(e) => Err(e),
                Ok((kr, k)) => {
                    if k < tokens.len() {
                        match &tokens[k] {
                            Token::RParen => Ok((kr, k + 1)),
                            _ => Err(KrParseError::MissingRParen),
                        }
                    } else {
                        Err(KrParseError::MissingRParen)
                    }
                },
            }
        },
        Token::RParen => Err(KrParseError::UnexpectedRParen),
        Token::LBracket => {
            let mut elements: Vec<Kr> = vec![Kr::Prim(Primitive::new(Prim::Enlist))];
            let mut j: usize = i + 1;
            let ghost mut done: Seq<Value> = Seq::empty();
            let ghost whole = parse_items_spec(um, t, i + 1);
            loop
                invariant_except_break
                    whole == items_after(done, parse_items_spec(um, t, j as int)),
                invariant
                    unit_ok(*unit),
                    t == lexemes(tokens@),
                    um == unit_model(*unit),
                    i < j <= tokens@.len(),
                    t[i as int] is LBracket,
                    whole == parse_items_spec(um, t, i + 1),
                    values(elements@) == seq![Value::Prim(Prim::Enlist)] + done,
                ensures
                    i < j <= tokens@.len(),
                    values(elements@) == seq![Value::Prim(Prim::Enlist)] + done,
                    whole == Ok::<(Seq<Value>, int), KrParseError>((done, j as int)),
                decreases tokens@.len() - j,
            {
                let (expr, k) = match parse_expr(tokens, j, unit) {
                    Err(e) => {
                        return Err(e);
                    },
                    Ok(p) => p,
                };
                let ghost before = done;
                proof {
                    done = done.push(expr@);
                    assert(before + seq![expr@] =~= done);
                    lemma_values_push(elements@, expr);
                }
                elements.push(expr);
                let more = if k < tokens.len() {
                    match &tokens[k] {
                        Token::SemiColon => true,
                        _ => false,
                    }
                } else {
                    false
                };
                if more {
                    proof {
                        let rest = parse_items_spec(um, t, k + 1);
                        match rest {
                            Ok((items, m)) => {
                                assert(before + (seq![expr@] + items) =~= done + items);
                            },
                            Err(_) => {},
                        }
                    }
                    j = k + 1;
                } else {
                    j = k;
                    break ;
                }
            }
            if j < tokens.len() {
                match &tokens[j] {
                    Token::RBracket => Ok((Kr::NN(elements), j + 1)),
                    _ => Err(KrParseError::MissingRBracket),
                }
            } else {
                Err(KrParseError::MissingRBracket)
            }
        },
        Token::RBracket => Err(KrParseError::UnexpectedRBracket),
        Token::SemiColon => Err(KrParseError::UnexpectedSemiColon),
    }
}

} // verus!
