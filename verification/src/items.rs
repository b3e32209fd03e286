//! Splitting a composition body (`ser!(c4q d4q)`, `ser!(c4q, d4q)`,
//! `ser!([c4q, d4q])`) into its items, over a plain model of token trees.
//! Macro calls, `::` paths, method calls, casts and control-flow blocks
//! stay glued as single items; misplaced commas, keywords and punctuation
//! are refused with a message.

use vstd::prelude::*;
use crate::text::{str_eq, push_str, push_char, to_owned_string};

verus! {

/// Group delimiters.
#[derive(Clone, Copy, Debug, PartialEq, Eq, Structural)]
pub enum Delimiter {
    Parenthesis,
    Brace,
    Bracket,
    /// An invisible group (no delimiter).
    Invisible,
}

/// A token tree: an identifier or keyword, a punctuation character
/// (`joint` when glued to the next punctuation), a literal's text, or a
/// delimited group.
#[derive(Debug, PartialEq)]
pub enum Token {
    Ident(String),
    Punct(char, bool),
    Literal(String),
    Group(Delimiter, Vec<Token>),
}

pub ghost enum TokenV {
    Ident(Seq<char>),
    Punct(char, bool),
    Literal(Seq<char>),
    Group(Delimiter, Seq<TokenV>),
}

impl Token {
    pub open spec fn view(&self) -> TokenV
        decreases self,
    {
        match self {
            Token::Ident(s) => TokenV::Ident(s@),
            Token::Punct(c, j) => TokenV::Punct(*c, *j),
            Token::Literal(s) => TokenV::Literal(s@),
            Token::Group(d, ts) => TokenV::Group(*d, tokens_view(ts@)),
        }
    }

    /// A copy with the same model.
    pub fn duplicate(&self) -> (r: Token)
        ensures
            r.view() == self.view(),
        decreases self,
    {
        match self {
            Token::Ident(s) => Token::Ident(crate::note::copy_string(s)),
            Token::Punct(c, j) => Token::Punct(*c, *j),
            Token::Literal(s) => Token::Literal(crate::note::copy_string(s)),
            Token::Group(d, ts) => Token::Group(*d, copy_tokens(ts)),
        }
    }
}

/// The model of a token list.
pub open spec fn tokens_view(s: Seq<Token>) -> Seq<TokenV>
    decreases s,
{
    Seq::new(s.len(), |i: int| if 0 <= i < s.len() { s[i].view() } else { arbitrary() })
}

/// A copy of a token list with the same model.
pub fn copy_tokens(v: &Vec<Token>) -> (r: Vec<Token>)
    ensures
        tokens_view(r@) == tokens_view(v@),
    decreases v,
{
    let mut r: Vec<Token> = Vec::new();
    let n = v.len();
    for i in 0..n
        invariant
            n == v@.len(),
            r@.len() == i,
            forall|j: int| 0 <= j < i ==> (#[trigger] r@[j]).view() == v@[j].view(),
    {
        proof { assert(decreases_to!(v => v@)); }
        r.push(v[i].duplicate());
    }
    assert(tokens_view(r@) =~= tokens_view(v@));
    r
}

// --- words ---

/// Keywords that never start an item.
pub open spec fn never_start(t: Seq<char>) -> bool {
    ||| t == "let"@ ||| t == "use"@ ||| t == "mod"@ ||| t == "struct"@ ||| t == "enum"@
    ||| t == "trait"@ ||| t == "impl"@ ||| t == "fn"@ ||| t == "pub"@ ||| t == "extern"@
    ||| t == "const"@ ||| t == "static"@ ||| t == "type"@ ||| t == "union"@ ||| t == "else"@
    ||| t == "in"@ ||| t == "ref"@
}

/// Keywords that open a block construct.
pub open spec fn opener_word(t: Seq<char>) -> bool {
    ||| t == "if"@ ||| t == "match"@ ||| t == "loop"@ ||| t == "while"@ ||| t == "for"@
    ||| t == "unsafe"@ ||| t == "async"@ ||| t == "move"@
}

fn is_never_start(t: &str) -> (r: bool)
    ensures
        r == never_start(t@),
{
    str_eq(t, "let") || str_eq(t, "use") || str_eq(t, "mod") || str_eq(t, "struct") || str_eq(t, "enum")
        || str_eq(t, "trait") || str_eq(t, "impl") || str_eq(t, "fn") || str_eq(t, "pub") || str_eq(t, "extern")
        || str_eq(t, "const") || str_eq(t, "static") || str_eq(t, "type") || str_eq(t, "union") || str_eq(t, "else")
        || str_eq(t, "in") || str_eq(t, "ref")
}

fn is_opener(t: &str) -> (r: bool)
    ensures
        r == opener_word(t@),
{
    str_eq(t, "if") || str_eq(t, "match") || str_eq(t, "loop") || str_eq(t, "while") || str_eq(t, "for")
        || str_eq(t, "unsafe") || str_eq(t, "async") || str_eq(t, "move")
}

pub open spec fn is_comma(t: TokenV) -> bool {
    t matches TokenV::Punct(c, _) && c == ','
}

/// The token is the identifier `name`.
pub open spec fn ident_named(t: TokenV, name: Seq<char>) -> bool {
    t matches TokenV::Ident(s) && s == name
}

/// Whether `token` is the identifier `name`.
pub fn is_ident_named(token: &Token, name: &str) -> (r: bool)
    ensures
        r == ident_named(token.view(), name@),
{
    match token {
        Token::Ident(s) => str_eq(s.as_str(), name),
        _ => false,
    }
}

/// Text of the trailing identifier of an item, empty when none.
pub open spec fn prev_ident_spec(current: Seq<TokenV>) -> Seq<char> {
    if current.len() > 0 && current.last() is Ident { current.last()->Ident_0 } else { Seq::empty() }
}

/// Text of the trailing identifier in `current`, or empty when none.
pub fn prev_ident(current: &Vec<Token>) -> (r: String)
    ensures
        r@ == prev_ident_spec(tokens_view(current@)),
{
    if current.len() == 0 {
        return String::new();
    }
    match &current[current.len() - 1] {
        Token::Ident(s) => crate::note::copy_string(s),
        _ => String::new(),
    }
}

// --- messages ---

pub open spec fn stray_comma_msg() -> Seq<char> {
    "empty item: stray comma"@
}

pub open spec fn outer_parens_msg() -> Seq<char> {
    "drop the outer parens for multi-note bodies: ser!(c4q, d4q), not ser!((c4q, d4q))"@
}

pub open spec fn keyword_msg(text: Seq<char>) -> Seq<char> {
    "unexpected `"@ + text + "` here: expected a note"@
}

pub open spec fn punct_msg(c: char) -> Seq<char> {
    "expected a note, macro call or Group here, found `"@ + seq![c] + "`"@
}

fn keyword_error(text: &String) -> (r: String)
    ensures
        r@ == keyword_msg(text@),
{
    let mut m = to_owned_string("unexpected `");
    push_str(&mut m, text.as_str());
    push_str(&mut m, "` here: expected a note");
    m
}

fn punct_error(c: char) -> (r: String)
    ensures
        r@ == punct_msg(c),
{
    let mut m = to_owned_string("expected a note, macro call or Group here, found `");
    push_char(&mut m, c);
    push_str(&mut m, "`");
    m
}

// --- comma split ---

/// Items between top-level commas; a comma with nothing before it is an
/// error, a trailing comma is accepted.
pub open spec fn comma_fold(tokens: Seq<TokenV>) -> Result<(Seq<Seq<TokenV>>, Seq<TokenV>), Seq<char>>
    decreases tokens.len(),
{
    if tokens.len() == 0 {
        Ok((Seq::empty(), Seq::empty()))
    } else {
        match comma_fold(tokens.drop_last()) {
            Err(e) => Err(e),
            Ok((items, current)) => {
                let t = tokens.last();
                if is_comma(t) {
                    if current.len() == 0 { Err(stray_comma_msg()) } else { Ok((items.push(current), Seq::empty())) }
                } else {
                    Ok((items, current.push(t)))
                }
            },
        }
    }
}

pub open spec fn split_commas_spec(tokens: Seq<TokenV>) -> Result<Seq<Seq<TokenV>>, Seq<char>> {
    match comma_fold(tokens) {
        Err(e) => Err(e),
        Ok((items, current)) => Ok(if current.len() > 0 { items.push(current) } else { items }),
    }
}

/// The model of a list of items.
pub open spec fn items_view(items: Seq<Vec<Token>>) -> Seq<Seq<TokenV>> {
    items.map_values(|it: Vec<Token>| tokens_view(it@))
}

/// Split the interior of a bracket group at its top-level commas.
pub fn split_commas(tokens: &Vec<Token>) -> (r: Result<Vec<Vec<Token>>, String>)
    ensures
        match (r, split_commas_spec(tokens_view(tokens@))) {
            (Ok(items), Ok(m)) => items_view(items@) == m,
            (Err(e), Err(m)) => e@ == m,
            _ => false,
        },
{
    let ghost tv = tokens_view(tokens@);
    let mut items: Vec<Vec<Token>> = Vec::new();
    let mut current: Vec<Token> = Vec::new();
    let n = tokens.len();
    assert(tv.take(0) =~= Seq::<TokenV>::empty());
    assert(items_view(items@) =~= Seq::<Seq<TokenV>>::empty());
    assert(tokens_view(current@) =~= Seq::<TokenV>::empty());
    for i in 0..n
        invariant
            n == tokens@.len(),
            tv == tokens_view(tokens@),
            comma_fold(tv.take(i as int)) == Ok::<(Seq<Seq<TokenV>>, Seq<TokenV>), Seq<char>>((items_view(items@), tokens_view(current@))),
    {
        assert(tv.take(i + 1).drop_last() =~= tv.take(i as int));
        assert(tv.take(i + 1).last() == tokens@[i as int].view());
        let t = &tokens[i];
        let comma = match t { Token::Punct(c, _) => *c == ',', _ => false };
        if comma {
            if current.len() == 0 {
                proof { reveal_strlit("empty item: stray comma"); }
                proof { lemma_comma_fold_err(tv, i as int + 1); }
                return Err(to_owned_string("empty item: stray comma"));
            }
            let ghost iv = items_view(items@);
            let ghost cv = tokens_view(current@);
            items.push(current);
            current = Vec::new();
            assert(items_view(items@) =~= iv.push(cv));
            assert(tokens_view(current@) =~= Seq::<TokenV>::empty());
        } else {
            let ghost cv = tokens_view(current@);
            current.push(t.duplicate());
            assert(tokens_view(current@) =~= cv.push(t.view()));
        }
    }
    assert(tv.take(n as int) =~= tv);
    if current.len() > 0 {
        let ghost iv = items_view(items@);
        let ghost cv = tokens_view(current@);
        items.push(current);
        assert(items_view(items@) =~= iv.push(cv));
    }
    Ok(items)
}

/// Once the comma fold fails on a prefix, it fails on the whole input.
proof fn lemma_comma_fold_err(tokens: Seq<TokenV>, i: int)
    requires
        0 <= i <= tokens.len(),
        comma_fold(tokens.take(i)) is Err,
    ensures
        comma_fold(tokens) == comma_fold(tokens.take(i)),
    decreases tokens.len() - i,
{
    if i < tokens.len() {
        assert(tokens.take(i + 1).drop_last() =~= tokens.take(i));
        lemma_comma_fold_err(tokens, i + 1);
    } else {
        assert(tokens.take(i) =~= tokens);
    }
}

/// Whether any top-level token is a comma.
pub fn top_level_commas(tokens: &Vec<Token>) -> (r: bool)
    ensures
        r == exists|i: int| 0 <= i < tokens@.len() && is_comma(#[trigger] tokens@[i].view()),
{
    let n = tokens.len();
    for i in 0..n
        invariant
            n == tokens@.len(),
            forall|j: int| 0 <= j < i ==> !is_comma(#[trigger] tokens@[j].view()),
    {
        match &tokens[i] {
            Token::Punct(c, _) => {
                if *c == ',' {
                    assert(is_comma(tokens@[i as int].view()));
                    return true;
                }
            },
            _ => {},
        }
    }
    false
}

// --- general split ---

/// Splitting state: items done, the item being built, and whether a block
/// construct (`if`, `match`, …) is open and has seen its brace group.
pub ghost struct SplitState {
    pub items: Seq<Seq<TokenV>>,
    pub current: Seq<TokenV>,
    pub opener: bool,
    pub saw_brace: bool,
}

/// Close the current item; an empty one is an error unless it is the
/// last token's trailing comma after some item.
pub open spec fn finish_spec(st: SplitState, last: bool) -> Result<SplitState, Seq<char>> {
    if st.current.len() == 0 {
        if last && st.items.len() > 0 { Ok(st) } else { Err(stray_comma_msg()) }
    } else {
        Ok(SplitState { items: st.items.push(st.current), current: Seq::empty(), ..st })
    }
}

/// An identifier that stays glued to a non-empty current item.
pub open spec fn glued(current: Seq<TokenV>, text: Seq<char>, opener: bool) -> bool {
    ||| text == "else"@
    ||| text == "as"@
    ||| ident_named(current.last(), "as"@)
    ||| (current.last() matches TokenV::Punct(c, _) && (c == ':' || c == '.'))
    ||| never_start(prev_ident_spec(current))
    ||| opener
}

/// An identifier starting an item: keywords that never start one are
/// refused, block openers open a construct.
pub open spec fn start_ident(st: SplitState, tok: TokenV, text: Seq<char>) -> Result<SplitState, Seq<char>> {
    if never_start(text) {
        Err(keyword_msg(text))
    } else if opener_word(text) {
        Ok(SplitState { current: st.current.push(tok), opener: true, saw_brace: false, ..st })
    } else {
        Ok(SplitState { current: st.current.push(tok), ..st })
    }
}

pub open spec fn unary_punct(c: char) -> bool {
    c == '-' || c == '+' || c == '&' || c == '*' || c == '!' || c == '~'
}

/// One token in normal mode.
pub open spec fn normal_step(st: SplitState, tok: TokenV, last: bool) -> Result<SplitState, Seq<char>> {
    let pushed = SplitState { current: st.current.push(tok), ..st };
    if is_comma(tok) {
        if st.opener { Ok(pushed) } else { finish_spec(st, last) }
    } else {
        match tok {
            TokenV::Ident(text) =>
                if st.current.len() == 0 {
                    start_ident(st, tok, text)
                } else if glued(st.current, text, st.opener) {
                    Ok(pushed)
                } else if st.current.last() is Ident || st.current.last() is Literal || st.current.last() is Group {
                    match finish_spec(st, false) {
                        Err(e) => Err(e),
                        Ok(s2) => start_ident(s2, tok, text),
                    }
                } else {
                    Ok(pushed)
                },
            TokenV::Group(d, _) =>
                Ok(SplitState { saw_brace: if d == Delimiter::Brace { true } else { st.saw_brace }, ..pushed }),
            TokenV::Literal(_) => Ok(pushed),
            TokenV::Punct(c, _) =>
                if st.current.len() == 0 && !unary_punct(c) { Err(punct_msg(c)) } else { Ok(pushed) },
        }
    }
}

/// One token: after a construct's brace group, `else` continues it, a
/// comma ends the item, a group attaches, anything else ends the
/// construct and is read in normal mode.
pub open spec fn split_step(st: SplitState, tok: TokenV, last: bool) -> Result<SplitState, Seq<char>> {
    if st.opener && st.saw_brace {
        if ident_named(tok, "else"@) {
            normal_step(SplitState { saw_brace: false, ..st }, tok, last)
        } else if is_comma(tok) {
            finish_spec(SplitState { opener: false, saw_brace: false, ..st }, last)
        } else if tok is Group {
            normal_step(st, tok, last)
        } else {
            normal_step(SplitState { opener: false, saw_brace: false, ..st }, tok, last)
        }
    } else {
        normal_step(st, tok, last)
    }
}

pub open spec fn split_init() -> SplitState {
    SplitState { items: Seq::empty(), current: Seq::empty(), opener: false, saw_brace: false }
}

/// The state after the first `k` tokens.
pub open spec fn split_fold(tokens: Seq<TokenV>, k: nat) -> Result<SplitState, Seq<char>>
    decreases k,
{
    if k == 0 {
        Ok(split_init())
    } else {
        match split_fold(tokens, (k - 1) as nat) {
            Err(e) => Err(e),
            Ok(st) => split_step(st, tokens[k - 1], k == tokens.len()),
        }
    }
}

/// Items of a composition body, or the message refusing it.
pub open spec fn split_items_spec(tokens: Seq<TokenV>) -> Result<Seq<Seq<TokenV>>, Seq<char>> {
    if tokens.len() == 1 && tokens[0] is Group {
        let d = tokens[0]->Group_0;
        let inner = tokens[0]->Group_1;
        if d == Delimiter::Bracket {
            split_commas_spec(inner)
        } else if d == Delimiter::Parenthesis && exists|i: int| 0 <= i < inner.len() && is_comma(#[trigger] inner[i]) {
            Err(outer_parens_msg())
        } else {
            Ok(seq![tokens])
        }
    } else if tokens.len() == 0 {
        Ok(Seq::empty())
    } else {
        match split_fold(tokens, tokens.len()) {
            Err(e) => Err(e),
            Ok(st) => Ok(if st.current.len() > 0 { st.items.push(st.current) } else { st.items }),
        }
    }
}

struct SplitExec {
    items: Vec<Vec<Token>>,
    current: Vec<Token>,
    opener: bool,
    saw_brace: bool,
}

impl SplitExec {
    spec fn model(&self) -> SplitState {
        SplitState { items: items_view(self.items@), current: tokens_view(self.current@), opener: self.opener, saw_brace: self.saw_brace }
    }
}

fn finish_exec(st: &mut SplitExec, last: bool) -> (r: Result<(), String>)
    ensures
        match (r, finish_spec(old(st).model(), last)) {
            (Ok(_), Ok(m)) => final(st).model() == m,
            (Err(e), Err(m)) => e@ == m,
            _ => false,
        },
{
    if st.current.len() == 0 {
        if last && st.items.len() > 0 {
            return Ok(());
        }
        proof { reveal_strlit("empty item: stray comma"); }
        return Err(to_owned_string("empty item: stray comma"));
    }
    let ghost iv = items_view(st.items@);
    let ghost cv = tokens_view(st.current@);
    let mut cur: Vec<Token> = Vec::new();
    std::mem::swap(&mut cur, &mut st.current);
    st.items.push(cur);
    assert(items_view(st.items@) =~= iv.push(cv));
    assert(tokens_view(st.current@) =~= Seq::<TokenV>::empty());
    Ok(())
}

fn push_token(st: &mut SplitExec, tok: &Token)
    ensures
        final(st).model() == (SplitState { current: old(st).model().current.push(tok.view()), ..old(st).model() }),
{
    let ghost cv = tokens_view(st.current@);
    st.current.push(tok.duplicate());
    assert(tokens_view(st.current@) =~= cv.push(tok.view()));
}

fn start_ident_exec(st: &mut SplitExec, tok: &Token, text: &String) -> (r: Result<(), String>)
    requires
        tok.view() == TokenV::Ident(text@),
    ensures
        match (r, start_ident(old(st).model(), tok.view(), text@)) {
            (Ok(_), Ok(m)) => final(st).model() == m,
            (Err(e), Err(m)) => e@ == m,
            _ => false,
        },
{
    if is_never_start(text.as_str()) {
        return Err(keyword_error(text));
    }
    push_token(st, tok);
    if is_opener(text.as_str()) {
        st.opener = true;
        st.saw_brace = false;
    }
    Ok(())
}

fn last_is_complete(current: &Vec<Token>) -> (r: bool)
    requires
        current@.len() > 0,
    ensures
        r == (tokens_view(current@).last() is Ident || tokens_view(current@).last() is Literal || tokens_view(current@).last() is Group),
{
    match &current[current.len() - 1] {
        Token::Ident(_) | Token::Literal(_) | Token::Group(_, _) => true,
        _ => false,
    }
}

fn is_glued(current: &Vec<Token>, text: &String, opener: bool) -> (r: bool)
    requires
        current@.len() > 0,
    ensures
        r == glued(tokens_view(current@), text@, opener),
{
    let last = &current[current.len() - 1];
    let path_punct = match last {
        Token::Punct(c, _) => *c == ':' || *c == '.',
        _ => false,
    };
    let prev = prev_ident(current);
    str_eq(text.as_str(), "else") || str_eq(text.as_str(), "as") || is_ident_named(last, "as") || path_punct
        || is_never_start(prev.as_str()) || opener
}

fn normal_step_exec(st: &mut SplitExec, tok: &Token, last: bool) -> (r: Result<(), String>)
    ensures
        match (r, normal_step(old(st).model(), tok.view(), last)) {
            (Ok(_), Ok(m)) => final(st).model() == m,
            (Err(e), Err(m)) => e@ == m,
            _ => false,
        },
{
    let comma = match tok { Token::Punct(c, _) => *c == ',', _ => false };
    if comma {
        if st.opener {
            push_token(st, tok);
            return Ok(());
        }
        return finish_exec(st, last);
    }
    match tok {
        Token::Ident(text) => {
            if st.current.len() == 0 {
                start_ident_exec(st, tok, text)
            } else if is_glued(&st.current, text, st.opener) {
                push_token(st, tok);
                Ok(())
            } else if last_is_complete(&st.current) {
                let f = finish_exec(st, false);
                match f {
                    Err(e) => Err(e),
                    Ok(_) => start_ident_exec(st, tok, text),
                }
            } else {
                push_token(st, tok);
                Ok(())
            }
        },
        Token::Group(d, _) => {
            if *d == Delimiter::Brace {
                st.saw_brace = true;
            }
            push_token(st, tok);
            Ok(())
        },
        Token::Literal(_) => {
            push_token(st, tok);
            Ok(())
        },
        Token::Punct(c, _) => {
            let c = *c;
            if st.current.len() == 0 && !(c == '-' || c == '+' || c == '&' || c == '*' || c == '!' || c == '~') {
                return Err(punct_error(c));
            }
            push_token(st, tok);
            Ok(())
        },
    }
}

fn split_step_exec(st: &mut SplitExec, tok: &Token, last: bool) -> (r: Result<(), String>)
    ensures
        match (r, split_step(old(st).model(), tok.view(), last)) {
            (Ok(_), Ok(m)) => final(st).model() == m,
            (Err(e), Err(m)) => e@ == m,
            _ => false,
        },
{
    if st.opener && st.saw_brace {
        if is_ident_named(tok, "else") {
            st.saw_brace = false;
            return normal_step_exec(st, tok, last);
        }
        let comma = match tok { Token::Punct(c, _) => *c == ',', _ => false };
        if comma {
            st.opener = false;
            st.saw_brace = false;
            return finish_exec(st, last);
        }
        let group = match tok { Token::Group(_, _) => true, _ => false };
        if group {
            return normal_step_exec(st, tok, last);
        }
        st.opener = false;
        st.saw_brace = false;
        return normal_step_exec(st, tok, last);
    }
    normal_step_exec(st, tok, last)
}

proof fn lemma_split_fold_err(tokens: Seq<TokenV>, k: nat)
    requires
        k <= tokens.len(),
        split_fold(tokens, k) is Err,
    ensures
        split_fold(tokens, tokens.len()) == split_fold(tokens, k),
    decreases tokens.len() - k,
{
    if k < tokens.len() {
        lemma_split_fold_err(tokens, k + 1);
    }
}

/// Split a composition body into items: a sole `[...]` group is split at
/// its commas; a sole `(...)` group with a top-level comma is refused; any
/// other sole group is one item; otherwise items are separated by commas
/// and whitespace as `split_step` decides.
pub fn split_items(tokens: &[Token]) -> (r: Result<Vec<Vec<Token>>, String>)
    ensures
        match (r, split_items_spec(tokens_view(tokens@))) {
            (Ok(items), Ok(m)) => items_view(items@) == m,
            (Err(e), Err(m)) => e@ == m,
            _ => false,
        },
{
    let ghost tv = tokens_view(tokens@);
    if tokens.len() == 1 {
        match &tokens[0] {
            Token::Group(d, inner) => {
                assert(tv[0] == tokens@[0].view());
                if *d == Delimiter::Bracket {
                    return split_commas(inner);
                }
                if *d == Delimiter::Parenthesis {
                    if top_level_commas(inner) {
                        proof {
                            reveal_strlit("drop the outer parens for multi-note bodies: ser!(c4q, d4q), not ser!((c4q, d4q))");
                            let i = choose|i: int| 0 <= i < inner@.len() && is_comma(#[trigger] inner@[i].view());
                            assert(tokens_view(inner@)[i] == inner@[i].view());
                        }
                        return Err(to_owned_string("drop the outer parens for multi-note bodies: ser!(c4q, d4q), not ser!((c4q, d4q))"));
                    }
                    proof {
                        assert forall|i: int| 0 <= i < tokens_view(inner@).len() implies !is_comma(#[trigger] tokens_view(inner@)[i]) by {
                            assert(tokens_view(inner@)[i] == inner@[i].view());
                        }
                    }
                }
                let mut only: Vec<Vec<Token>> = Vec::new();
                let mut one: Vec<Token> = Vec::new();
                one.push(tokens[0].duplicate());
                assert(tokens_view(one@) =~= tv);
                only.push(one);
                assert(items_view(only@) =~= seq![tv]);
                return Ok(only);
            },
            _ => {},
        }
    }
    if tokens.len() == 0 {
        let empty: Vec<Vec<Token>> = Vec::new();
        assert(items_view(empty@) =~= Seq::<Seq<TokenV>>::empty());
        return Ok(empty);
    }
    let mut st = SplitExec { items: Vec::new(), current: Vec::new(), opener: false, saw_brace: false };
    assert(items_view(st.items@) =~= Seq::<Seq<TokenV>>::empty());
    assert(tokens_view(st.current@) =~= Seq::<TokenV>::empty());
    let total = tokens.len();
    for index in 0..total
        invariant
            total == tokens@.len(),
            total > 0,
            tv == tokens_view(tokens@),
            split_fold(tv, index as nat) == Ok::<SplitState, Seq<char>>(st.model()),
    {
        assert(tv[index as int] == tokens@[index as int].view());
        let step = split_step_exec(&mut st, &tokens[index], index + 1 == total);
        match step {
            Err(e) => {
                proof { lemma_split_fold_err(tv, (index + 1) as nat); }
                return Err(e);
            },
            Ok(_) => {},
        }
    }
    if st.current.len() > 0 {
        let ghost iv = items_view(st.items@);
        let ghost cv = tokens_view(st.current@);
        let mut cur: Vec<Token> = Vec::new();
    std::mem::swap(&mut cur, &mut st.current);
        st.items.push(cur);
        assert(items_view(st.items@) =~= iv.push(cv));
    }
    Ok(st.items)
}

} // verus!
