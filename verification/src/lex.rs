use vstd::prelude::*;
use vstd::slice::slice_subrange;
use vstd::utf8::encode_utf8;
use crate::text::Text;
use crate::token::{
    BACKTICK, COLON, COMMA, DIGIT_NINE, DIGIT_ZERO, FAMILY_E, FAMILY_F, FAMILY_I, FAMILY_J,
    KrLexeme, KrToken, LBRACKET, LOWER_A, LOWER_Z, LPAREN, Lexeme, MINUS, NameToken, NumberToken,
    OperatorToken, PERCENT, PLUS, QUOTE, QuotedToken, RBRACKET, RPAREN, SEMICOLON, STAR,
    SymbolToken, Token, UPPER_A, UPPER_Z, all_digits, is_operator_byte, lexemes, literal_digits,
    literal_family, operator_of,
};

verus! {

/// An ASCII letter.
pub open spec fn is_letter(c: u8) -> bool {
    (UPPER_A <= c <= UPPER_Z) || (LOWER_A <= c <= LOWER_Z)
}

/// An ASCII digit.
pub open spec fn is_digit(c: u8) -> bool {
    DIGIT_ZERO <= c <= DIGIT_NINE
}

/// One of the letters `e f i j`, which name a numeric family.
pub open spec fn is_family_letter(c: u8) -> bool {
    c == FAMILY_E || c == FAMILY_F || c == FAMILY_I || c == FAMILY_J
}

/// Where the longest run of bytes that `class` accepts, starting at `i`,
/// ends: the first position from `i` on that holds another byte, or the end
/// of `s`.
pub open spec fn run_end(s: Seq<u8>, i: int, class: spec_fn(u8) -> bool) -> int
    decreases s.len() - i,
{
    if 0 <= i < s.len() && class(s[i]) {
        run_end(s, i + 1, class)
    } else {
        i
    }
}

/// Where the number that starts at `i` ends: after its digits and the one
/// family letter that may follow them.
pub open spec fn number_end(s: Seq<u8>, i: int) -> int {
    let j = run_end(s, i, |c: u8| is_digit(c));
    if 0 <= j < s.len() && is_family_letter(s[j]) {
        j + 1
    } else {
        j
    }
}

/// The token that starts at `i`, if one does, and where the scan goes on.
pub open spec fn scan(s: Seq<u8>, i: int) -> (Option<Lexeme>, int)
    recommends
        0 <= i < s.len(),
{
    let c = s[i];
    if is_letter(c) {
        let j = run_end(s, i, |c: u8| is_letter(c));
        (Some(Lexeme::KrToken(KrLexeme::Name(s.subrange(i, j)))), j)
    } else if is_digit(c) {
        let j = number_end(s, i);
        (Some(Lexeme::KrToken(KrLexeme::Number(s.subrange(i, j)))), j)
    } else if is_operator_byte(c) {
        (Some(Lexeme::KrToken(KrLexeme::Operator(s.subrange(i, i + 1), operator_of(c)))), i + 1)
    } else if c == QUOTE {
        let q = run_end(s, i + 1, |c: u8| c != QUOTE);
        (
            Some(Lexeme::KrToken(KrLexeme::Quoted(s.subrange(i + 1, q)))),
            if q < s.len() {
                q + 1
            } else {
                q
            },
        )
    } else if c == BACKTICK {
        let j = run_end(s, i + 1, |c: u8| is_letter(c));
        (Some(Lexeme::KrToken(KrLexeme::Symbol(s.subrange(i + 1, j)))), j)
    } else if c == LPAREN {
        (Some(Lexeme::LParen), i + 1)
    } else if c == RPAREN {
        (Some(Lexeme::RParen), i + 1)
    } else if c == LBRACKET {
        (Some(Lexeme::LBracket), i + 1)
    } else if c == RBRACKET {
        (Some(Lexeme::RBracket), i + 1)
    } else if c == SEMICOLON {
        (Some(Lexeme::SemiColon), i + 1)
    } else {
        (None, i + 1)
    }
}

/// The tokens of `s` from position `i` on.
pub open spec fn lex_from(s: Seq<u8>, i: int) -> Seq<Lexeme>
    decreases s.len() - i,
{
    if 0 <= i < s.len() {
        let (token, next) = scan(s, i);
        proof {
            lemma_scan_advances(s, i);
        }
        match token {
            Some(t) => seq![t] + lex_from(s, next),
            None => lex_from(s, next),
        }
    } else {
        Seq::empty()
    }
}

/// The tokens of a text.
pub open spec fn lex_spec(s: Seq<u8>) -> Seq<Lexeme> {
    lex_from(s, 0)
}

/// A run ends at or after its start, and inside the text.
pub proof fn lemma_run_end_bounds(s: Seq<u8>, i: int, class: spec_fn(u8) -> bool)
    requires
        0 <= i <= s.len(),
    ensures
        i <= run_end(s, i, class) <= s.len(),
    decreases s.len() - i,
{
    if i < s.len() && class(s[i]) {
        lemma_run_end_bounds(s, i + 1, class);
    }
}

/// A run is the stretch of accepted bytes in front of the first other byte.
pub proof fn lemma_run_end_is(s: Seq<u8>, i: int, j: int, class: spec_fn(u8) -> bool)
    requires
        0 <= i <= j <= s.len(),
        forall|k: int| i <= k < j ==> class(#[trigger] s[k]),
        j < s.len() ==> !class(s[j]),
    ensures
        run_end(s, i, class) == j,
    decreases j - i,
{
    if i < j {
        lemma_run_end_is(s, i + 1, j, class);
    }
}

/// Every byte of a run is accepted, and the byte behind it is not.
pub proof fn lemma_run_end_holds(s: Seq<u8>, i: int, class: spec_fn(u8) -> bool)
    requires
        0 <= i <= s.len(),
    ensures
        forall|k: int| i <= k < run_end(s, i, class) ==> class(#[trigger] s[k]),
        run_end(s, i, class) < s.len() ==> !class(s[run_end(s, i, class)]),
    decreases s.len() - i,
{
    if i < s.len() && class(s[i]) {
        lemma_run_end_holds(s, i + 1, class);
    }
}

/// A run in the tail of a text ends where it ends in the whole.
pub proof fn lemma_run_end_tail(s: Seq<u8>, i: int, class: spec_fn(u8) -> bool)
    requires
        0 <= i <= s.len(),
    ensures
        run_end(s.subrange(i, s.len() as int), 0, class) + i == run_end(s, i, class),
{
    let tail = s.subrange(i, s.len() as int);
    lemma_run_end_bounds(s, i, class);
    lemma_run_end_holds(s, i, class);
    let j = run_end(s, i, class);
    lemma_run_end_is(tail, 0, j - i, class);
}

/// Each step of the scan moves on, and stays inside the text.
pub proof fn lemma_scan_advances(s: Seq<u8>, i: int)
    requires
        0 <= i < s.len(),
    ensures
        i < scan(s, i).1 <= s.len(),
{
    lemma_run_end_bounds(s, i + 1, |c: u8| is_letter(c));
    lemma_run_end_bounds(s, i + 1, |c: u8| is_digit(c));
    lemma_run_end_bounds(s, i + 1, |c: u8| c != QUOTE);
}

/// What holds of every token that the lexer cuts: a name is one letter or
/// more; a number is one digit or more, with at most a family letter behind
/// them; an operator is one operator character and the operator it stands
/// for; a symbol holds letters only; a quoted text holds no double quote.
pub open spec fn well_formed(token: Lexeme) -> bool {
    match token {
        Lexeme::KrToken(KrLexeme::Name(t)) => t.len() > 0 && forall|k: int|
            0 <= k < t.len() ==> is_letter(#[trigger] t[k]),
        Lexeme::KrToken(KrLexeme::Number(t)) => {
            &&& literal_digits(t).len() > 0
            &&& all_digits(literal_digits(t))
            &&& is_family_letter(literal_family(t))
        },
        Lexeme::KrToken(KrLexeme::Operator(t, op)) => {
            &&& t.len() == 1
            &&& is_operator_byte(t[0])
            &&& op == operator_of(t[0])
        },
        Lexeme::KrToken(KrLexeme::Symbol(t)) => forall|k: int|
            0 <= k < t.len() ==> is_letter(#[trigger] t[k]),
        Lexeme::KrToken(KrLexeme::Quoted(t)) => forall|k: int|
            0 <= k < t.len() ==> #[trigger] t[k] != QUOTE,
        _ => true,
    }
}

/// The token that the scan finds at a position is well formed.
pub proof fn lemma_scan_well_formed(s: Seq<u8>, i: int)
    requires
        0 <= i < s.len(),
    ensures
        scan(s, i).0 matches Some(t) ==> well_formed(t),
{
    let c = s[i];
    if is_letter(c) {
        let class = |c: u8| is_letter(c);
        lemma_run_end_bounds(s, i, class);
        lemma_run_end_holds(s, i, class);
    } else if is_digit(c) {
        let class = |c: u8| is_digit(c);
        lemma_run_end_bounds(s, i, class);
        lemma_run_end_holds(s, i, class);
        assert(i < number_end(s, i) <= s.len());
    } else if c == QUOTE {
        let class = |c: u8| c != QUOTE;
        lemma_run_end_bounds(s, i + 1, class);
        lemma_run_end_holds(s, i + 1, class);
    } else if c == BACKTICK {
        let class = |c: u8| is_letter(c);
        lemma_run_end_bounds(s, i + 1, class);
        lemma_run_end_holds(s, i + 1, class);
    }
}

/// Every token of a text is well formed, whatever the text.
pub proof fn lemma_lex_well_formed(s: Seq<u8>, i: int)
    ensures
        forall|k: int| 0 <= k < lex_from(s, i).len() ==> well_formed(#[trigger] lex_from(s, i)[k]),
    decreases s.len() - i,
{
    if 0 <= i < s.len() {
        lemma_scan_advances(s, i);
        lemma_scan_well_formed(s, i);
        lemma_lex_well_formed(s, scan(s, i).1);
        // The tokens from `i` on are the token at `i`, if there is one, then the rest.
        assert(lex_from(s, i).len() >= lex_from(s, scan(s, i).1).len());
    }
}

fn letter(c: u8) -> (r: bool)
    ensures
        r == is_letter(c),
{
    (UPPER_A <= c && c <= UPPER_Z) || (LOWER_A <= c && c <= LOWER_Z)
}

fn cut(text: &Text, from: usize, to: usize) -> (r: Text)
    requires
        from <= to <= text@.len(),
    ensures
        r@ == text@.subrange(from as int, to as int),
{
    Text::from_slice(slice_subrange(text.0.as_slice(), from, to))
}

/// The length of the number at the head of `input`: its digits and the one
/// family letter that may follow them.
pub fn read_number(input: &[u8]) -> (r: usize)
    ensures
        r == number_end(input@, 0),
{
    let n = input.len();
    let mut i: usize = 0;
    while i < n && DIGIT_ZERO <= input[i] && input[i] <= DIGIT_NINE
        invariant
            n == input@.len(),
            i <= n,
            forall|k: int| 0 <= k < i ==> is_digit(#[trigger] input@[k]),
        decreases n - i,
    {
        i = i + 1;
    }
    proof {
        lemma_run_end_is(input@, 0, i as int, |c: u8| is_digit(c));
    }
    if i < n {
        let c = input[i];
        if c == FAMILY_E || c == FAMILY_F || c == FAMILY_I || c == FAMILY_J {
            i = i + 1;
        }
    }
    i
}

/// Cuts a text into tokens in one pass from left to right. Spaces and bytes
/// that start no token are passed over; nothing is an error.
pub fn lex(input: &String) -> (tokens: Vec<Token>)
    ensures
        lexemes(tokens@) == lex_spec(encode_utf8(input@)),
        forall|k: int| 0 <= k < tokens@.len() ==> well_formed(#[trigger] tokens@[k]@),
{
    let input = Text::from_str(input.as_str());
    let ghost s = input@;
    let n = input.len();
    let mut tokens: Vec<Token> = Vec::new();
    let mut i: usize = 0;
    while i < n
        invariant
            s == input@,
            n == s.len(),
            i <= n,
            lexemes(tokens@) + lex_from(s, i as int) == lex_from(s, 0),
        decreases n - i,
    {
        let c = input.0[i];
        let j: usize;
        if letter(c) {
            let not_letter = |x: &u8| -> (b: bool)
                ensures
                    b == !is_letter(*x),
                { !letter(*x) };
            j = input.find_first(not_letter, i);
            proof {
                lemma_run_end_is(s, i as int, j as int, |c: u8| is_letter(c));
            }
            tokens.push(Token::KrToken(KrToken::Name(NameToken::new(cut(&input, i, j)))));
        } else if DIGIT_ZERO <= c && c <= DIGIT_NINE {
            proof {
                lemma_run_end_tail(s, i as int, |c: u8| is_digit(c));
                lemma_run_end_bounds(s, i as int, |c: u8| is_digit(c));
            }
            let m = read_number(slice_subrange(input.0.as_slice(), i, n));
            j = i + m;
            tokens.push(Token::KrToken(KrToken::Number(NumberToken::new(cut(&input, i, j)))));
        } else if c == PLUS || c == MINUS || c == STAR || c == PERCENT || c == COLON || c == COMMA {
            j = i + 1;
            tokens.push(Token::KrToken(KrToken::Operator(OperatorToken::new(cut(&input, i, j)))));
        } else if c == QUOTE {
            let quote = |x: &u8| -> (b: bool)
                ensures
                    b == (*x == QUOTE),
                { *x == QUOTE };
            let q = input.find_first(quote, i + 1);
            proof {
                lemma_run_end_is(s, i + 1, q as int, |c: u8| c != QUOTE);
            }
            tokens.push(Token::KrToken(KrToken::Quoted(QuotedToken::new(cut(&input, i + 1, q)))));
            j = if q < n {
                q + 1
            } else {
                q
            };
        } else if c == BACKTICK {
            let not_letter = |x: &u8| -> (b: bool)
                ensures
                    b == !is_letter(*x),
                { !letter(*x) };
            j = input.find_first(not_letter, i + 1);
            proof {
                lemma_run_end_is(s, i + 1, j as int, |c: u8| is_letter(c));
            }
            tokens.push(Token::KrToken(KrToken::Symbol(SymbolToken::new(cut(&input, i + 1, j)))));
        } else if c == LPAREN {
            j = i + 1;
            tokens.push(Token::LParen);
        } else if c == RPAREN {
            j = i + 1;
            tokens.push(Token::RParen);
        } else if c == LBRACKET {
            j = i + 1;
            tokens.push(Token::LBracket);
        } else if c == RBRACKET {
            j = i + 1;
            tokens.push(Token::RBracket);
        } else if c == SEMICOLON {
            j = i + 1;
            tokens.push(Token::SemiColon);
        } else {
            j = i + 1;
        }
        i = j;
    }
    proof {
        lemma_lex_well_formed(s, 0);
        assert forall|k: int| 0 <= k < tokens@.len() implies well_formed(
            #[trigger] tokens@[k]@,
        ) by {
            assert(tokens@[k]@ == lexemes(tokens@)[k]);
        }
    }
    tokens
}

} // verus!
