use vstd::prelude::*;
use vstd::string::StringExecFns;

use crate::formatter::{at_start, ind, Formatter};

verus! {

/// A lint attribute, written on its own line above a declaration.
pub enum Lint {
    /// `#[allow(...)]`.
    Allow(String),
    /// `#[expect(...)]`.
    Expect(String),
    /// `#[warn(...)]`.
    Warn(String),
    /// `#[force-warn(...)]`.
    ForceWarn(String),
    /// `#[deny(...)]`.
    Deny(String),
    /// `#[forbid(...)]`.
    Forbid(String),
}

/// The rendered lint line, newline included.
pub open spec fn lint_text(l: Lint) -> Seq<char> {
    match l {
        Lint::Allow(s) => "#[allow("@ + s@ + ")]\n"@,
        Lint::Expect(s) => "#[expect("@ + s@ + ")]\n"@,
        Lint::Warn(s) => "#[warn("@ + s@ + ")]\n"@,
        Lint::ForceWarn(s) => "#[force-warn("@ + s@ + ")]\n"@,
        Lint::Deny(s) => "#[deny("@ + s@ + ")]\n"@,
        Lint::Forbid(s) => "#[forbid("@ + s@ + ")]\n"@,
    }
}

impl Clone for Lint {
    fn clone(&self) -> (r: Lint)
        ensures
            lint_text(r) == lint_text(*self),
    {
        match self {
            Lint::Allow(s) => Lint::Allow(s.clone()),
            Lint::Expect(s) => Lint::Expect(s.clone()),
            Lint::Warn(s) => Lint::Warn(s.clone()),
            Lint::ForceWarn(s) => Lint::ForceWarn(s.clone()),
            Lint::Deny(s) => Lint::Deny(s.clone()),
            Lint::Forbid(s) => Lint::Forbid(s.clone()),
        }
    }
}

impl Lint {
    /// Builds an `#[allow(...)]` lint.
    pub fn allow(name: &str) -> (r: Lint)
        ensures
            r matches Lint::Allow(s) && s@ == name@,
    {
        Lint::Allow(name.to_owned())
    }

    /// Builds an `#[expect(...)]` lint.
    pub fn expect(name: &str) -> (r: Lint)
        ensures
            r matches Lint::Expect(s) && s@ == name@,
    {
        Lint::Expect(name.to_owned())
    }

    /// Builds a `#[warn(...)]` lint.
    pub fn warn(name: &str) -> (r: Lint)
        ensures
            r matches Lint::Warn(s) && s@ == name@,
    {
        Lint::Warn(name.to_owned())
    }

    /// Builds a `#[force-warn(...)]` lint.
    pub fn force_warn(name: &str) -> (r: Lint)
        ensures
            r matches Lint::ForceWarn(s) && s@ == name@,
    {
        Lint::ForceWarn(name.to_owned())
    }

    /// Builds a `#[deny(...)]` lint.
    pub fn deny(name: &str) -> (r: Lint)
        ensures
            r matches Lint::Deny(s) && s@ == name@,
    {
        Lint::Deny(name.to_owned())
    }

    /// Builds a `#[forbid(...)]` lint.
    pub fn forbid(name: &str) -> (r: Lint)
        ensures
            r matches Lint::Forbid(s) && s@ == name@,
    {
        Lint::Forbid(name.to_owned())
    }

    /// The rendered lint line.
    pub fn to_text(&self) -> (r: String)
        ensures
            r@ == lint_text(*self),
    {
        let mut out: String;
        match self {
            Lint::Allow(s) => {
                out = String::from_str("#[allow(");
                out.append(s.as_str());
            },
            Lint::Expect(s) => {
                out = String::from_str("#[expect(");
                out.append(s.as_str());
            },
            Lint::Warn(s) => {
                out = String::from_str("#[warn(");
                out.append(s.as_str());
            },
            Lint::ForceWarn(s) => {
                out = String::from_str("#[force-warn(");
                out.append(s.as_str());
            },
            Lint::Deny(s) => {
                out = String::from_str("#[deny(");
                out.append(s.as_str());
            },
            Lint::Forbid(s) => {
                out = String::from_str("#[forbid(");
                out.append(s.as_str());
            },
        }
        out.append(")]\n");
        out
    }

    /// Writes the lint line through the formatter.
    pub fn fmt(&self, fmt: &mut Formatter)
        requires
            old(fmt).wf(),
        ensures
            final(fmt).wf(),
            final(fmt).depth() == old(fmt).depth(),
            final(fmt).text() == old(fmt).text() + ind(
                lint_text(*self),
                at_start(old(fmt).text()),
                old(fmt).depth(),
            ),
    {
        let t = self.to_text();
        fmt.write_str(t.as_str());
    }
}

} // verus!
