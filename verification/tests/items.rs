//! Splitting composition bodies into items.

use mmlx::items::{split_items, Delimiter, Token};
use proc_macro2::{Spacing, TokenStream, TokenTree};

fn to_tokens(stream: TokenStream) -> Vec<Token> {
    stream
        .into_iter()
        .map(|tree| match tree {
            TokenTree::Ident(ident) => Token::Ident(ident.to_string()),
            TokenTree::Punct(punct) => Token::Punct(punct.as_char(), punct.spacing() == Spacing::Joint),
            TokenTree::Literal(lit) => Token::Literal(lit.to_string()),
            TokenTree::Group(group) => {
                let delimiter = match group.delimiter() {
                    proc_macro2::Delimiter::Parenthesis => Delimiter::Parenthesis,
                    proc_macro2::Delimiter::Brace => Delimiter::Brace,
                    proc_macro2::Delimiter::Bracket => Delimiter::Bracket,
                    proc_macro2::Delimiter::None => Delimiter::Invisible,
                };
                Token::Group(delimiter, to_tokens(group.stream()))
            }
        })
        .collect()
}

fn to_stream(tokens: &[Token]) -> TokenStream {
    let mut out = TokenStream::new();
    for token in tokens {
        let tree: TokenTree = match token {
            Token::Ident(name) => proc_macro2::Ident::new(name, proc_macro2::Span::call_site()).into(),
            Token::Punct(c, joint) => {
                let spacing = if *joint { Spacing::Joint } else { Spacing::Alone };
                proc_macro2::Punct::new(*c, spacing).into()
            }
            Token::Literal(text) => {
                let parsed: TokenStream = text.parse().unwrap();
                parsed.into_iter().next().unwrap()
            }
            Token::Group(delimiter, inner) => {
                let delimiter = match delimiter {
                    Delimiter::Parenthesis => proc_macro2::Delimiter::Parenthesis,
                    Delimiter::Brace => proc_macro2::Delimiter::Brace,
                    Delimiter::Bracket => proc_macro2::Delimiter::Bracket,
                    Delimiter::Invisible => proc_macro2::Delimiter::None,
                };
                proc_macro2::Group::new(delimiter, to_stream(inner)).into()
            }
        };
        out.extend(std::iter::once(tree));
    }
    out
}

fn split(input: &str) -> Result<Vec<String>, String> {
    let tokens = to_tokens(input.parse::<TokenStream>().unwrap());
    split_items(&tokens).map(|items| items.iter().map(|item| to_stream(item).to_string()).collect())
}

fn expect(input: &str, want: &[&str]) {
    match split(input) {
        Ok(got) => {
            let want: Vec<String> = want.iter().map(|s| s.to_string()).collect();
            // Compare via re-parsed normalization (spacing-insensitive).
            let norm = |v: Vec<String>| {
                v.into_iter()
                    .map(|s| s.parse::<TokenStream>().unwrap().to_string())
                    .collect::<Vec<_>>()
            };
            assert_eq!(norm(got), norm(want), "input {input:?}");
        }
        Err(err) => panic!("input {input:?} unexpectedly failed: {err}"),
    }
}

fn expect_err(input: &str) {
    assert!(split(input).is_err(), "input {input:?} should fail");
}

#[test]
fn whitespace_and_comma_forms_agree() {
    expect("c4q d4q", &["c4q", "d4q"]);
    expect("c4q, d4q", &["c4q", "d4q"]);
    expect("[c4q, d4q]", &["c4q", "d4q"]);
    expect("c4q", &["c4q"]);
    expect("", &[]);
    expect("c4q,", &["c4q"]);
}

#[test]
fn macro_units_stay_whole() {
    expect("param!(tempo = 120) c4q", &["param!(tempo = 120)", "c4q"]);
    expect("d6o!(velocity = 8.47)", &["d6o!(velocity = 8.47)"]);
    expect("c4i, o, ro", &["c4i", "o", "ro"]);
    expect("repeat!(25)", &["repeat!(25)"]);
    expect("ser!(c4q d4q) e4q", &["ser!(c4q d4q)", "e4q"]);
}

#[test]
fn paths_calls_and_blocks() {
    expect("voice_bass() c4q", &["voice_bass()", "c4q"]);
    expect("voice_bass.clone() c4q", &["voice_bass.clone()", "c4q"]);
    expect("crate::songs::x() c4q", &["crate::songs::x()", "c4q"]);
    expect(
        "if c { a } else { b } d4q",
        &["if c { a } else { b }", "d4q"],
    );
    expect("match x { _ => a } d4q", &["match x { _ => a }", "d4q"]);
    expect("foo as Bar", &["foo as Bar"]);
}

#[test]
fn bad_inputs_fail_here() {
    expect_err(",c4q");
    expect_err("c4q,,d4q");
    expect_err("(c4q, d4q)");
    expect_err("#c4q");
    expect_err("let x = 1");
}

#[test]
fn stray_comma_message_names_the_problem() {
    assert_eq!(split("c4q,,d4q"), Err("empty item: stray comma".to_string()));
    assert_eq!(
        split("(c4q, d4q)"),
        Err("drop the outer parens for multi-note bodies: ser!(c4q, d4q), not ser!((c4q, d4q))".to_string())
    );
}
