//! Semantic version numbers as plain data.

use vstd::prelude::*;
use vstd::std_specs::cmp::PartialEqSpecImpl;

verus! {

/// One dot-separated part of a pre-release tag or of build metadata.
#[derive(Debug)]
pub enum Identifier {
    /// A part made of digits only.
    Numeric(u64),
    /// A part that holds letters or hyphens.
    AlphaNumeric(String),
}

/// What an [`Identifier`] stands for in contracts.
pub enum IdentifierView {
    Numeric(u64),
    AlphaNumeric(Seq<char>),
}

impl View for Identifier {
    type V = IdentifierView;

    open spec fn view(&self) -> IdentifierView {
        match *self {
            Identifier::Numeric(n) => IdentifierView::Numeric(n),
            Identifier::AlphaNumeric(s) => IdentifierView::AlphaNumeric(s@),
        }
    }
}

impl Clone for Identifier {
    fn clone(&self) -> (r: Self)
        ensures
            r@ == self@,
    {
        match self {
            Identifier::Numeric(n) => Identifier::Numeric(*n),
            Identifier::AlphaNumeric(s) => Identifier::AlphaNumeric(s.clone()),
        }
    }
}

impl PartialEq for Identifier {
    fn eq(&self, other: &Self) -> (r: bool) {
        match (self, other) {
            (Identifier::Numeric(a), Identifier::Numeric(b)) => *a == *b,
            (Identifier::AlphaNumeric(a), Identifier::AlphaNumeric(b)) => *a == *b,
            _ => false,
        }
    }
}

impl PartialEqSpecImpl for Identifier {
    open spec fn obeys_eq_spec() -> bool {
        true
    }

    open spec fn eq_spec(&self, other: &Self) -> bool {
        self@ == other@
    }
}

impl Eq for Identifier {

}

/// The views of a list of identifiers, in order.
pub open spec fn identifiers_view(ids: Seq<Identifier>) -> Seq<IdentifierView> {
    ids.map_values(|id: Identifier| id@)
}

/// Copies a list of identifiers.
pub fn clone_identifiers(ids: &Vec<Identifier>) -> (r: Vec<Identifier>)
    ensures
        identifiers_view(r@) == identifiers_view(ids@),
{
    let mut out: Vec<Identifier> = Vec::new();
    let mut i: usize = 0;
    while i < ids.len()
        invariant
            i <= ids.len(),
            out@.len() == i,
            forall|k: int| 0 <= k < i ==> out@[k]@ == ids@[k]@,
        decreases ids.len() - i,
    {
        out.push(ids[i].clone());
        i += 1;
    }
    assert(identifiers_view(out@) =~= identifiers_view(ids@));
    out
}

/// Whether two lists of identifiers hold the same parts in the same order.
pub fn identifiers_equal(a: &Vec<Identifier>, b: &Vec<Identifier>) -> (r: bool)
    ensures
        r == (identifiers_view(a@) == identifiers_view(b@)),
{
    if a.len() != b.len() {
        assert(identifiers_view(a@).len() != identifiers_view(b@).len());
        return false;
    }
    let mut i: usize = 0;
    while i < a.len()
        invariant
            i <= a.len(),
            a.len() == b.len(),
            forall|k: int| 0 <= k < i ==> a@[k]@ == b@[k]@,
        decreases a.len() - i,
    {
        if a[i] != b[i] {
            assert(identifiers_view(a@)[i as int] != identifiers_view(b@)[i as int]);
            return false;
        }
        i += 1;
    }
    assert(identifiers_view(a@) =~= identifiers_view(b@));
    true
}

/// A version number: three counters, an optional pre-release tag and optional
/// build metadata.
///
/// Two versions compare equal with `==` when they agree in the three counters
/// and in the pre-release tag. Build metadata takes no part in the comparison.
#[derive(Debug)]
pub struct Version {
    /// Raised on incompatible changes.
    pub major: u64,
    /// Raised when functionality is added compatibly.
    pub minor: u64,
    /// Raised on compatible fixes.
    pub patch: u64,
    /// The parts of the pre-release tag; empty for a release.
    pub pre: Vec<Identifier>,
    /// The parts of the build metadata.
    pub build: Vec<Identifier>,
}

/// What a [`Version`] stands for in contracts.
pub struct VersionView {
    pub major: u64,
    pub minor: u64,
    pub patch: u64,
    pub pre: Seq<IdentifierView>,
    pub build: Seq<IdentifierView>,
}

impl VersionView {
    /// The comparison that `==` on versions decides: everything but build
    /// metadata agrees.
    pub open spec fn same(self, other: VersionView) -> bool {
        &&& self.major == other.major
        &&& self.minor == other.minor
        &&& self.patch == other.patch
        &&& self.pre == other.pre
    }
}

impl View for Version {
    type V = VersionView;

    open spec fn view(&self) -> VersionView {
        VersionView {
            major: self.major,
            minor: self.minor,
            patch: self.patch,
            pre: identifiers_view(self.pre@),
            build: identifiers_view(self.build@),
        }
    }
}

impl Version {
    /// The release `major.minor.patch`, with no pre-release tag and no build
    /// metadata.
    pub fn new(major: u64, minor: u64, patch: u64) -> (r: Version)
        ensures
            r@ == (VersionView {
                major,
                minor,
                patch,
                pre: Seq::<IdentifierView>::empty(),
                build: Seq::<IdentifierView>::empty(),
            }),
    {
        let r = Version { major, minor, patch, pre: Vec::new(), build: Vec::new() };
        assert(identifiers_view(r.pre@) =~= Seq::<IdentifierView>::empty());
        assert(identifiers_view(r.build@) =~= Seq::<IdentifierView>::empty());
        r
    }
}

impl Clone for Version {
    fn clone(&self) -> (r: Self)
        ensures
            r@ == self@,
    {
        Version {
            major: self.major,
            minor: self.minor,
            patch: self.patch,
            pre: clone_identifiers(&self.pre),
            build: clone_identifiers(&self.build),
        }
    }
}

impl PartialEq for Version {
    fn eq(&self, other: &Self) -> (r: bool) {
        self.major == other.major && self.minor == other.minor && self.patch == other.patch
            && identifiers_equal(&self.pre, &other.pre)
    }
}

impl PartialEqSpecImpl for Version {
    open spec fn obeys_eq_spec() -> bool {
        true
    }

    open spec fn eq_spec(&self, other: &Self) -> bool {
        self@.same(other@)
    }
}

impl Eq for Version {

}

} // verus!
