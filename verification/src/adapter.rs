//! The regex adapter: a compiled pattern with JS-flavored call semantics.
//!
//! `Regolith` owns a compiled regex together with the original pattern and
//! flag strings. The flags `i`, `m` and `s` configure the engine at
//! construction; `g` is stored and consulted per call to choose between
//! first-match and all-matches behavior. Unrecognized flag characters are
//! ignored.

use vstd::prelude::*;

use crate::engine;

verus! {

/// Error returned by the adapter's constructor when the pattern does not
/// compile under the requested flag configuration. `message` carries the
/// engine's diagnostic text verbatim.
#[derive(Debug)]
pub struct InvalidPattern {
    pub message: String,
}

/// The flag characters as a sequence: the given string's characters, or
/// empty where no flag string was given.
pub open spec fn flag_seq(flags: Option<String>) -> Seq<char> {
    match flags {
        Some(f) => f@,
        None => Seq::<char>::empty(),
    }
}

/// A compiled regular expression with JS-flavored operations.
pub struct Regolith {
    regex: regex::Regex,
    pattern: String,
    flags: String,
}

impl Regolith {
    /// The compiled engine state is always the one derived from the stored
    /// pattern and flag strings.
    #[verifier::type_invariant]
    spec fn inv(self) -> bool {
        &&& engine::re_pattern(self.regex) == self.pattern@
        &&& engine::re_options(self.regex) == (
            self.flags@.contains('i'),
            self.flags@.contains('m'),
            self.flags@.contains('s'),
        )
    }

    /// The pattern string the adapter was built from.
    pub closed spec fn spec_source(&self) -> Seq<char> {
        self.pattern@
    }

    /// The flag string the adapter was built from.
    pub closed spec fn spec_flags(&self) -> Seq<char> {
        self.flags@
    }

    /// Whether the `g` (global) flag was given.
    pub open spec fn spec_global(&self) -> bool {
        self.spec_flags().contains('g')
    }

    /// Whether the `i` (ignore case) flag was given.
    pub open spec fn spec_ignore_case(&self) -> bool {
        self.spec_flags().contains('i')
    }

    /// Whether the `m` (multi-line) flag was given.
    pub open spec fn spec_multiline(&self) -> bool {
        self.spec_flags().contains('m')
    }

    /// Whether the `s` (dot-matches-newline) flag was given.
    pub open spec fn spec_dot_all(&self) -> bool {
        self.spec_flags().contains('s')
    }

    /// Whether the pattern matches anywhere in `hay`.
    pub open spec fn spec_has_match(&self, hay: Seq<char>) -> bool {
        engine::spec_is_match(
            self.spec_source(),
            self.spec_ignore_case(),
            self.spec_multiline(),
            self.spec_dot_all(),
            hay,
        )
    }

    /// The capture vector of the leftmost match in `hay` (index 0 the
    /// overall match; `None` for a group that did not participate).
    pub open spec fn spec_captures(&self, hay: Seq<char>) -> Seq<Option<Seq<char>>> {
        engine::spec_captures(
            self.spec_source(),
            self.spec_ignore_case(),
            self.spec_multiline(),
            self.spec_dot_all(),
            hay,
        )
    }

    /// The shape of an `exec` result: the capture vector, with a group that
    /// did not participate reported as the empty string.
    pub open spec fn spec_exec(&self, hay: Seq<char>) -> Seq<Seq<char>> {
        self.spec_captures(hay).map_values(
            |g: Option<Seq<char>>|
                match g {
                    Some(s) => s,
                    None => Seq::<char>::empty(),
                },
        )
    }

    /// The text of the leftmost match in `hay`.
    pub open spec fn spec_first_match(&self, hay: Seq<char>) -> Seq<char> {
        engine::spec_find(
            self.spec_source(),
            self.spec_ignore_case(),
            self.spec_multiline(),
            self.spec_dot_all(),
            hay,
        ).1
    }

    /// The starting byte offset of the leftmost match in `hay`.
    pub open spec fn spec_first_start(&self, hay: Seq<char>) -> nat {
        engine::spec_find(
            self.spec_source(),
            self.spec_ignore_case(),
            self.spec_multiline(),
            self.spec_dot_all(),
            hay,
        ).0
    }

    /// The texts of all non-overlapping matches in `hay`, left to right.
    pub open spec fn spec_all_matches(&self, hay: Seq<char>) -> Seq<Seq<char>> {
        engine::spec_find_all(
            self.spec_source(),
            self.spec_ignore_case(),
            self.spec_multiline(),
            self.spec_dot_all(),
            hay,
        )
    }

    /// `hay` with its leftmost match replaced by `rep`.
    pub open spec fn spec_replace_first(&self, hay: Seq<char>, rep: Seq<char>) -> Seq<char> {
        engine::spec_replace_first(
            self.spec_source(),
            self.spec_ignore_case(),
            self.spec_multiline(),
            self.spec_dot_all(),
            hay,
            rep,
        )
    }

    /// `hay` with every non-overlapping match replaced by `rep`.
    pub open spec fn spec_replace_all(&self, hay: Seq<char>, rep: Seq<char>) -> Seq<char> {
        engine::spec_replace_all(
            self.spec_source(),
            self.spec_ignore_case(),
            self.spec_multiline(),
            self.spec_dot_all(),
            hay,
            rep,
        )
    }

    /// The substrings of `hay` delimited by the pattern's matches.
    pub open spec fn spec_split_all(&self, hay: Seq<char>) -> Seq<Seq<char>> {
        engine::spec_split_all(
            self.spec_source(),
            self.spec_ignore_case(),
            self.spec_multiline(),
            self.spec_dot_all(),
            hay,
        )
    }

    /// The first `limit` substrings of the engine's limited split of `hay`.
    pub open spec fn spec_split_limited(&self, hay: Seq<char>, limit: nat) -> Seq<Seq<char>> {
        engine::spec_split_limited(
            self.spec_source(),
            self.spec_ignore_case(),
            self.spec_multiline(),
            self.spec_dot_all(),
            hay,
            limit,
        )
    }

    /// Compiles `pattern` under the configuration drawn from `flags`: `i`
    /// turns on case-insensitive matching, `m` multi-line mode, `s`
    /// dot-matches-newline; `g` is only stored; any other character is
    /// ignored. Fails, returning the engine's diagnostic, exactly when the
    /// pattern does not compile under that configuration.
    pub fn new(pattern: String, flags: Option<String>) -> (r: Result<Self, InvalidPattern>)
        ensures
            r is Ok <==> engine::spec_compiles(
                pattern@,
                flag_seq(flags).contains('i'),
                flag_seq(flags).contains('m'),
                flag_seq(flags).contains('s'),
            ),
            r matches Ok(a) ==> a.spec_source() == pattern@ && a.spec_flags() == flag_seq(flags),
    {
        let flag_str: String = match flags {
            Some(f) => f,
            None => String::new(),
        };
        let ci = engine::str_contains_char(&flag_str, 'i');
        let ml = engine::str_contains_char(&flag_str, 'm');
        let da = engine::str_contains_char(&flag_str, 's');
        match engine::compile(&pattern, ci, ml, da) {
            Ok(re) => Ok(
                Regolith {
                    regex: re,
                    pattern,
                    flags: flag_str,
                },
            ),
            Err(message) => Err(InvalidPattern { message }),
        }
    }

    /// Whether the pattern matches anywhere in `input`; independent of `g`.
    pub fn test(&self, input: String) -> (r: bool)
        ensures
            r == self.spec_has_match(input@),
    {
        proof {
            use_type_invariant(&*self);
        }
        engine::is_match(&self.regex, &input)
    }

    /// Finds the leftmost match of the pattern in `input`, regardless of
    /// `g`. Returns `None` exactly when there is no match; otherwise the
    /// overall match text followed by one entry per capture group, a group
    /// that did not participate yielding the empty string.
    pub fn exec(&self, input: String) -> (r: Option<Vec<String>>)
        ensures
            r is Some <==> self.spec_has_match(input@),
            r matches Some(v) ==> v.deep_view() == self.spec_exec(input@),
            r matches Some(v) ==> v@.len() >= 1 && self.spec_captures(input@)[0] is Some,
    {
        proof {
            use_type_invariant(&*self);
        }
        match engine::captures(&self.regex, &input) {
            Some(groups) => {
                let mut out: Vec<String> = Vec::new();
                let mut i: usize = 0;
                while i < groups.len()
                    invariant
                        i <= groups@.len(),
                        groups.deep_view() == self.spec_captures(input@),
                        out@.len() == i,
                        forall|j: int| 0 <= j < i ==> out@[j]@ == self.spec_exec(input@)[j],
                    decreases groups@.len() - i,
                {
                    match &groups[i] {
                        Some(s) => out.push(s.clone()),
                        None => out.push(String::new()),
                    }
                    i = i + 1;
                }
                proof {
                    assert(out.deep_view() =~= self.spec_exec(input@));
                }
                Some(out)
            },
            None => None,
        }
    }

    /// With `g` absent: the leftmost match's text alone, as a one-element
    /// vector, or `None` when there is no match. With `g` present: the texts
    /// of all non-overlapping matches, left to right, and `None` (never an
    /// empty vector) when there are none.
    pub fn match_str(&self, input: String) -> (r: Option<Vec<String>>)
        ensures
            r is Some <==> self.spec_has_match(input@),
            self.spec_global() ==> (r matches Some(v) ==> v.deep_view() == self.spec_all_matches(
                input@,
            )),
            !self.spec_global() ==> (r matches Some(v) ==> v.deep_view() == seq![
                self.spec_first_match(input@),
            ]),
            r matches Some(v) ==> v@.len() >= 1,
    {
        proof {
            use_type_invariant(&*self);
        }
        if engine::str_contains_char(&self.flags, 'g') {
            let all = engine::find_all(&self.regex, &input);
            if all.len() == 0 {
                None
            } else {
                Some(all)
            }
        } else {
            match engine::find(&self.regex, &input) {
                Some(m) => {
                    let mut v: Vec<String> = Vec::new();
                    v.push(m.1);
                    proof {
                        assert(v.deep_view() =~= seq![self.spec_first_match(input@)]);
                    }
                    Some(v)
                },
                None => None,
            }
        }
    }

    /// Replaces the leftmost match of the pattern in `input` by
    /// `replacement`, or every non-overlapping match when `g` was given. The
    /// replacement goes through the engine unchanged, so the engine's own
    /// group-reference expansion applies. An `input` the pattern does not
    /// match is returned unchanged.
    pub fn replace(&self, input: String, replacement: String) -> (r: String)
        ensures
            self.spec_global() ==> r@ == self.spec_replace_all(input@, replacement@),
            !self.spec_global() ==> r@ == self.spec_replace_first(input@, replacement@),
            !self.spec_has_match(input@) ==> r@ == input@,
    {
        proof {
            use_type_invariant(&*self);
        }
        if engine::str_contains_char(&self.flags, 'g') {
            engine::replace_all(&self.regex, &input, &replacement)
        } else {
            engine::replace_first(&self.regex, &input, &replacement)
        }
    }

    /// The starting byte offset of the leftmost match of the pattern in
    /// `input`, or `-1` when there is no match. Ignores `g`. An offset
    /// beyond `i32::MAX` (which needs an input of over 2 GiB) is clamped
    /// to `i32::MAX`.
    pub fn search(&self, input: String) -> (r: i32)
        ensures
            self.spec_has_match(input@) <==> r >= 0,
            !self.spec_has_match(input@) ==> r == -1,
            self.spec_has_match(input@) && self.spec_first_start(input@) <= i32::MAX ==> r
                == self.spec_first_start(input@),
    {
        proof {
            use_type_invariant(&*self);
        }
        match engine::find(&self.regex, &input) {
            Some(m) => {
                if m.0 <= i32::MAX as usize {
                    m.0 as i32
                } else {
                    i32::MAX
                }
            },
            None => -1,
        }
    }

    /// Splits `input` on every non-overlapping match of the pattern. With
    /// `limit` absent or zero, all pieces are returned; with a positive
    /// `limit`, at most that many, the last being the unsplit remainder
    /// (the engine's own limited-split semantics).
    pub fn split(&self, input: String, limit: Option<u32>) -> (r: Vec<String>)
        ensures
            limit is None ==> r.deep_view() == self.spec_split_all(input@),
            limit matches Some(n) ==> r.deep_view() == (if n == 0 {
                self.spec_split_all(input@)
            } else {
                self.spec_split_limited(input@, n as nat)
            }),
            (limit is None || limit == Some(0u32)) && !self.spec_has_match(input@)
                ==> r.deep_view() == seq![input@],
    {
        proof {
            use_type_invariant(&*self);
        }
        let lim: u32 = match limit {
            Some(n) => n,
            None => 0,
        };
        if lim == 0 {
            engine::split_all(&self.regex, &input)
        } else {
            engine::split_limited(&self.regex, &input, lim)
        }
    }

    /// The original pattern string, verbatim.
    pub fn source(&self) -> (r: String)
        ensures
            r@ == self.spec_source(),
    {
        self.pattern.clone()
    }

    /// The original flag string, verbatim.
    pub fn flags(&self) -> (r: String)
        ensures
            r@ == self.spec_flags(),
    {
        self.flags.clone()
    }

    /// Whether the flag string contains `g`.
    pub fn global(&self) -> (r: bool)
        ensures
            r == self.spec_global(),
    {
        engine::str_contains_char(&self.flags, 'g')
    }

    /// Whether the flag string contains `i`.
    pub fn ignore_case(&self) -> (r: bool)
        ensures
            r == self.spec_ignore_case(),
    {
        engine::str_contains_char(&self.flags, 'i')
    }

    /// Whether the flag string contains `m`.
    pub fn multiline(&self) -> (r: bool)
        ensures
            r == self.spec_multiline(),
    {
        engine::str_contains_char(&self.flags, 'm')
    }
}

/// Two adapters built from the same pattern and flag strings behave alike:
/// on every input, every operation's specified result coincides. Compiling
/// the same pair twice therefore yields interchangeable instances.
pub proof fn lemma_same_build_same_behavior(
    a: &Regolith,
    b: &Regolith,
    hay: Seq<char>,
    rep: Seq<char>,
    limit: nat,
)
    requires
        a.spec_source() == b.spec_source(),
        a.spec_flags() == b.spec_flags(),
    ensures
        a.spec_has_match(hay) == b.spec_has_match(hay),
        a.spec_exec(hay) == b.spec_exec(hay),
        a.spec_first_match(hay) == b.spec_first_match(hay),
        a.spec_first_start(hay) == b.spec_first_start(hay),
        a.spec_all_matches(hay) == b.spec_all_matches(hay),
        a.spec_replace_first(hay, rep) == b.spec_replace_first(hay, rep),
        a.spec_replace_all(hay, rep) == b.spec_replace_all(hay, rep),
        a.spec_split_all(hay) == b.spec_split_all(hay),
        a.spec_split_limited(hay, limit) == b.spec_split_limited(hay, limit),
{
}

} // verus!
