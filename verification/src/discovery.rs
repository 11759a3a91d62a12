//! Window discovery filtering: the native toolkit enumerates every desktop
//! window; the caller's optional class and title patterns are applied here,
//! after enumeration. A pattern that does not compile filters nothing,
//! matching the lenient behaviour the command surface promises.

use vstd::prelude::*;

use crate::types::Win32Window;

verus! {

/// Whether the pattern compiles as a regular expression.
pub uninterp spec fn regex_compiles(pattern: Seq<char>) -> bool;

/// Whether the compiled pattern matches somewhere in the text.
pub uninterp spec fn regex_is_match(pattern: Seq<char>, text: Seq<char>) -> bool;

/// Relies on regex::Regex::new and regex::Regex::is_match: with the
/// default configuration, whether a pattern compiles, and whether it
/// matches a text, are pure functions of pattern and text.
#[verifier::external_body]
fn pattern_matches(pattern: &str, text: &str) -> (r: Option<bool>)
    ensures
        r is Some <==> regex_compiles(pattern@),
        r matches Some(b) ==> b == regex_is_match(pattern@, text@),
{
    match regex::Regex::new(pattern) {
        Ok(re) => Some(re.is_match(text)),
        Err(_) => None,
    }
}

/// One optional filter: no pattern, and a pattern that does not compile,
/// both pass every text.
pub open spec fn passes_filter(pattern: Option<Seq<char>>, text: Seq<char>) -> bool {
    match pattern {
        None => true,
        Some(p) => !regex_compiles(p) || regex_is_match(p, text),
    }
}

/// Whether a window passes both the class filter and the title filter.
pub open spec fn window_passes(
    w: Win32Window,
    class_pattern: Option<Seq<char>>,
    window_pattern: Option<Seq<char>>,
) -> bool {
    passes_filter(class_pattern, w.class_name@) && passes_filter(window_pattern, w.window_name@)
}

/// The view of an optional pattern string.
pub open spec fn opt_str_view(o: Option<String>) -> Option<Seq<char>> {
    match o {
        None => None,
        Some(s) => Some(s@),
    }
}

/// Applies one optional filter to one text.
fn apply_filter(pattern: &Option<String>, text: &String) -> (r: bool)
    ensures
        r == passes_filter(opt_str_view(*pattern), text@),
{
    match pattern {
        None => true,
        Some(p) => match pattern_matches(p.as_str(), text.as_str()) {
            Some(b) => b,
            None => true,
        },
    }
}

/// Keeps the windows that pass both filters, in enumeration order.
pub fn filter_windows(
    windows: &Vec<Win32Window>,
    class_pattern: &Option<String>,
    window_pattern: &Option<String>,
) -> (r: Vec<Win32Window>)
    ensures
        r@ == windows@.filter(
            |w: Win32Window|
                window_passes(w, opt_str_view(*class_pattern), opt_str_view(*window_pattern)),
        ),
{
    let ghost pred = |w: Win32Window|
        window_passes(w, opt_str_view(*class_pattern), opt_str_view(*window_pattern));
    let mut r: Vec<Win32Window> = Vec::new();
    let n = windows.len();
    let mut i: usize = 0;
    while i < n
        invariant
            i <= n,
            n == windows@.len(),
            pred == (|w: Win32Window|
                window_passes(w, opt_str_view(*class_pattern), opt_str_view(*window_pattern))),
            r@ == windows@.subrange(0, i as int).filter(pred),
        decreases n - i,
    {
        let w = &windows[i];
        let keep_class = apply_filter(class_pattern, &w.class_name);
        let keep_window = apply_filter(window_pattern, &w.window_name);
        proof {
            reveal(Seq::filter);
            assert(windows@.subrange(0, i as int + 1).drop_last() =~= windows@.subrange(
                0,
                i as int,
            ));
            assert(windows@.subrange(0, i as int + 1).last() == windows@[i as int]);
        }
        if keep_class && keep_window {
            let copy = Win32Window {
                handle: w.handle,
                class_name: w.class_name.clone(),
                window_name: w.window_name.clone(),
            };
            proof {
                assert(copy == windows@[i as int]);
            }
            r.push(copy);
        }
        i = i + 1;
    }
    proof {
        assert(windows@.subrange(0, n as int) =~= windows@);
    }
    r
}

} // verus!
