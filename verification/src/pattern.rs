//! Glob patterns, compiled by the `glob` crate.

use vstd::prelude::*;
use vstd::std_specs::cmp::PartialEqSpecImpl;

verus! {

/// `glob::Pattern`, a compiled pattern. Nothing is known of its inside.
#[verifier::external_type_specification]
#[verifier::external_body]
pub struct ExGlobPattern(glob::Pattern);

/// `glob::PatternError`, with the two public fields that it has: the index
/// `pos` near which compiling stopped, and the message `msg`.
#[verifier::external_type_specification]
pub struct ExGlobPatternError(glob::PatternError);

/// What `glob::Pattern::new` finds wrong with a pattern text: nothing, or a
/// position and a message. For a given build target this depends on the text
/// alone; between targets it differs only in whether `\` bounds a path
/// component beside `**`, as `std::path::is_separator` has it.
pub uninterp spec fn glob_fault(pattern: Seq<char>) -> Option<(usize, Seq<char>)>;

/// Calls `glob::Pattern::new`. The call succeeds on the texts in which
/// [`glob_fault`] finds nothing; on the others its error carries the position
/// and the message that [`glob_fault`] gives.
#[verifier::external_body]
fn compile(pattern: &str) -> (r: Result<glob::Pattern, glob::PatternError>)
    ensures
        match r {
            Ok(_) => glob_fault(pattern@) is None,
            Err(e) => glob_fault(pattern@) == Some((e.pos, e.msg@)),
        },
{
    glob::Pattern::new(pattern)
}

/// `glob::Pattern::clone`. The copy is as opaque as what it was made from.
pub assume_specification[ <glob::Pattern as Clone>::clone ](
    pattern: &glob::Pattern,
) -> (r: glob::Pattern);

/// Why a text is no glob pattern.
#[derive(PartialEq, Eq, Debug, Clone, Copy)]
pub struct PatternSyntaxError {
    /// Index of the character near which the fault lies.
    pub pos: usize,
    /// What is wrong there.
    pub msg: &'static str,
}

impl View for PatternSyntaxError {
    type V = (usize, Seq<char>);

    open spec fn view(&self) -> (usize, Seq<char>) {
        (self.pos, self.msg@)
    }
}

/// A glob pattern that compiled: its text, and what `glob` made of it. No
/// value of this type holds a text in which `glob` finds a fault.
#[derive(Debug)]
pub struct PathPattern {
    text: String,
    compiled: glob::Pattern,
}

impl View for PathPattern {
    type V = Seq<char>;

    closed spec fn view(&self) -> Seq<char> {
        self.text@
    }
}

impl PathPattern {
    #[verifier::type_invariant]
    spec fn is_glob(self) -> bool {
        glob_fault(self.text@) is None
    }

    /// The compiled form that the pattern holds.
    pub closed spec fn compiled_form(self) -> glob::Pattern {
        self.compiled
    }
}

impl Clone for PathPattern {
    fn clone(&self) -> (r: Self)
        ensures
            r@ == self@,
    {
        proof {
            use_type_invariant(self);
        }
        PathPattern { text: self.text.clone(), compiled: self.compiled.clone() }
    }
}

impl PartialEq for PathPattern {
    /// Two patterns are equal when their texts are: the text decides what
    /// was compiled from it.
    fn eq(&self, other: &Self) -> (r: bool) {
        self.text == other.text
    }
}

impl PartialEqSpecImpl for PathPattern {
    open spec fn obeys_eq_spec() -> bool {
        true
    }

    open spec fn eq_spec(&self, other: &Self) -> bool {
        self@ == other@
    }
}

impl PathPattern {
    /// Compiles `pattern`, or says what is wrong with it.
    pub fn new(pattern: &str) -> (r: Result<PathPattern, PatternSyntaxError>)
        ensures
            match r {
                Ok(p) => glob_fault(pattern@) is None && p@ == pattern@,
                Err(e) => glob_fault(pattern@) == Some(e@),
            },
    {
        match compile(pattern) {
            Ok(compiled) => Ok(PathPattern { text: pattern.to_owned(), compiled }),
            Err(e) => Err(PatternSyntaxError { pos: e.pos, msg: e.msg }),
        }
    }

    /// The text that was compiled. It is a glob.
    pub fn as_str(&self) -> (s: &str)
        ensures
            s@ == self@,
            glob_fault(s@) is None,
    {
        proof {
            use_type_invariant(self);
        }
        self.text.as_str()
    }

    /// What `glob` compiled the text to, for matching paths against it.
    pub fn compiled(&self) -> (r: &glob::Pattern)
        ensures
            *r == self.compiled_form(),
    {
        &self.compiled
    }
}

} // verus!
