//! One condition of a transaction.

use vstd::prelude::*;
use vstd::std_specs::convert::FromSpecImpl;
use vstd::string::{StrSliceExecFns, StringExecFns};
use crate::byte_sequence::ByteSequence;
use crate::error::Error;
use crate::namespace::view_of;
use crate::wire::{PbCompare, PbCompareView, TargetUnion, TargetUnionView};

verus! {

/// The relation a condition asks for between the stored and the expected
/// value.
#[derive(Debug, Clone, Copy, PartialEq, Eq, Structural)]
pub enum CompareResult {
    /// The stored value equals the expected one; written `==`.
    Equal,
    /// The stored value is greater; written `>`.
    Greater,
    /// The stored value is less; written `<`.
    Less,
    /// The stored value differs; written `!=`.
    NotEqual,
}

impl CompareResult {
    /// The number the wire schema assigns to the relation.
    pub open spec fn spec_code(self) -> i32 {
        match self {
            CompareResult::Equal => 0i32,
            CompareResult::Greater => 1i32,
            CompareResult::Less => 2i32,
            CompareResult::NotEqual => 3i32,
        }
    }

    /// The relation a wire number stands for, if any.
    pub open spec fn spec_from_code(code: i32) -> Option<CompareResult> {
        if code == 0 {
            Some(CompareResult::Equal)
        } else if code == 1 {
            Some(CompareResult::Greater)
        } else if code == 2 {
            Some(CompareResult::Less)
        } else if code == 3 {
            Some(CompareResult::NotEqual)
        } else {
            None
        }
    }

    /// The way the relation is written.
    pub open spec fn spec_symbol(self) -> Seq<char> {
        match self {
            CompareResult::Equal => "=="@,
            CompareResult::Greater => ">"@,
            CompareResult::Less => "<"@,
            CompareResult::NotEqual => "!="@,
        }
    }

    /// The relation a text writes, if any.
    pub open spec fn spec_parse(s: Seq<char>) -> Option<CompareResult> {
        if s == "=="@ {
            Some(CompareResult::Equal)
        } else if s == ">"@ {
            Some(CompareResult::Greater)
        } else if s == "<"@ {
            Some(CompareResult::Less)
        } else if s == "!="@ {
            Some(CompareResult::NotEqual)
        } else {
            None
        }
    }

    #[verifier::when_used_as_spec(spec_code)]
    pub fn code(self) -> (r: i32)
        ensures
            r == self.spec_code(),
    {
        match self {
            CompareResult::Equal => 0,
            CompareResult::Greater => 1,
            CompareResult::Less => 2,
            CompareResult::NotEqual => 3,
        }
    }

    /// Reads a relation from its wire number.
    pub fn from_code(code: i32) -> (r: Option<CompareResult>)
        ensures
            r == CompareResult::spec_from_code(code),
    {
        if code == 0 {
            Some(CompareResult::Equal)
        } else if code == 1 {
            Some(CompareResult::Greater)
        } else if code == 2 {
            Some(CompareResult::Less)
        } else if code == 3 {
            Some(CompareResult::NotEqual)
        } else {
            None
        }
    }

    /// The way the relation is written.
    pub fn symbol(&self) -> (r: &'static str)
        ensures
            r@ == self.spec_symbol(),
    {
        match self {
            CompareResult::Equal => "==",
            CompareResult::Greater => ">",
            CompareResult::Less => "<",
            CompareResult::NotEqual => "!=",
        }
    }

    /// Reads a relation from the way it is written; any other text is an
    /// illegal argument, and the error quotes it.
    pub fn parse(s: &str) -> (r: Result<CompareResult, Error>)
        ensures
            match CompareResult::spec_parse(s@) {
                Some(relation) => r matches Ok(found) && found == relation,
                None => r matches Err(Error::IllegalArgument(reason)) && reason@
                    == "invalid CompareResult: "@ + s@,
            },
    {
        proof {
            reveal_strlit("==");
            reveal_strlit(">");
            reveal_strlit("<");
            reveal_strlit("!=");
        }
        let n = s.unicode_len();
        if n == 1 {
            let c = s.get_char(0);
            if c == '>' {
                assert(s@ =~= ">"@);
                return Ok(CompareResult::Greater);
            }
            if c == '<' {
                assert(s@ =~= "<"@);
                return Ok(CompareResult::Less);
            }
        } else if n == 2 {
            let c = s.get_char(0);
            let d = s.get_char(1);
            if c == '=' && d == '=' {
                assert(s@ =~= "=="@);
                return Ok(CompareResult::Equal);
            }
            if c == '!' && d == '=' {
                assert(s@ =~= "!="@);
                return Ok(CompareResult::NotEqual);
            }
        }
        Err(Error::IllegalArgument(String::from_str("invalid CompareResult: ").concat(s)))
    }
}

impl core::str::FromStr for CompareResult {
    type Err = Error;

    /// Reads a relation as `parse` does.
    fn from_str(s: &str) -> (r: Result<Self, Self::Err>)
        ensures
            match CompareResult::spec_parse(s@) {
                Some(relation) => r matches Ok(found) && found == relation,
                None => r matches Err(Error::IllegalArgument(reason)) && reason@
                    == "invalid CompareResult: "@ + s@,
            },
    {
        CompareResult::parse(s)
    }
}

impl From<CompareResult> for i32 {
    fn from(value: CompareResult) -> (r: i32) {
        value.code()
    }
}

impl FromSpecImpl<CompareResult> for i32 {
    open spec fn obeys_from_spec() -> bool {
        true
    }

    open spec fn from_spec(value: CompareResult) -> i32 {
        value.spec_code()
    }
}

/// What a condition looks at.
#[derive(Debug, Clone, Copy, PartialEq, Eq, Structural)]
pub enum CompareTarget {
    /// The version of the key.
    Version,
    /// The revision at which the key was created.
    Create,
    /// The revision at which the key was last modified.
    Mod,
    /// The value of the key.
    Value,
}

impl CompareTarget {
    /// The number the wire schema assigns to the target.
    pub open spec fn spec_code(self) -> i32 {
        match self {
            CompareTarget::Version => 0i32,
            CompareTarget::Create => 1i32,
            CompareTarget::Mod => 2i32,
            CompareTarget::Value => 3i32,
        }
    }

    /// The target a wire number stands for, if any.
    pub open spec fn spec_from_code(code: i32) -> Option<CompareTarget> {
        if code == 0 {
            Some(CompareTarget::Version)
        } else if code == 1 {
            Some(CompareTarget::Create)
        } else if code == 2 {
            Some(CompareTarget::Mod)
        } else if code == 3 {
            Some(CompareTarget::Value)
        } else {
            None
        }
    }

    #[verifier::when_used_as_spec(spec_code)]
    pub fn code(self) -> (r: i32)
        ensures
            r == self.spec_code(),
    {
        match self {
            CompareTarget::Version => 0,
            CompareTarget::Create => 1,
            CompareTarget::Mod => 2,
            CompareTarget::Value => 3,
        }
    }

    /// Reads a target from its wire number.
    pub fn from_code(code: i32) -> (r: Option<CompareTarget>)
        ensures
            r == CompareTarget::spec_from_code(code),
    {
        if code == 0 {
            Some(CompareTarget::Version)
        } else if code == 1 {
            Some(CompareTarget::Create)
        } else if code == 2 {
            Some(CompareTarget::Mod)
        } else if code == 3 {
            Some(CompareTarget::Value)
        } else {
            None
        }
    }
}

impl From<CompareTarget> for i32 {
    fn from(value: CompareTarget) -> (r: i32) {
        value.code()
    }
}

impl FromSpecImpl<CompareTarget> for i32 {
    open spec fn obeys_from_spec() -> bool {
        true
    }

    open spec fn from_spec(value: CompareTarget) -> i32 {
        value.spec_code()
    }
}

/// One condition of a transaction: a relation between what the store holds
/// for a key, or for each key of a range, and an expected value.
#[derive(Debug)]
pub struct Compare {
    pub result: CompareResult,
    pub target: CompareTarget,
    pub key: ByteSequence,
    pub version: Option<i64>,
    pub create_revision: Option<i64>,
    pub mod_revision: Option<i64>,
    pub value: Option<ByteSequence>,
    pub range_end: Option<ByteSequence>,
}

/// What a `Compare` holds.
pub struct CompareView {
    pub result: CompareResult,
    pub target: CompareTarget,
    pub key: Seq<u8>,
    pub version: Option<i64>,
    pub create_revision: Option<i64>,
    pub mod_revision: Option<i64>,
    pub value: Option<Seq<u8>>,
    pub range_end: Option<Seq<u8>>,
}

impl View for Compare {
    type V = CompareView;

    open spec fn view(&self) -> CompareView {
        CompareView {
            result: self.result,
            target: self.target,
            key: self.key@,
            version: self.version,
            create_revision: self.create_revision,
            mod_revision: self.mod_revision,
            value: view_of(self.value),
            range_end: view_of(self.range_end),
        }
    }
}

impl CompareView {
    /// Exactly one expected value is present, and it is the one the target
    /// names.
    pub open spec fn well_formed(self) -> bool {
        match self.target {
            CompareTarget::Version => self.version is Some && self.create_revision is None
                && self.mod_revision is None && self.value is None,
            CompareTarget::Create => self.version is None && self.create_revision is Some
                && self.mod_revision is None && self.value is None,
            CompareTarget::Mod => self.version is None && self.create_revision is None
                && self.mod_revision is Some && self.value is None,
            CompareTarget::Value => self.version is None && self.create_revision is None
                && self.mod_revision is None && self.value is Some,
        }
    }

    /// A condition of equality on `key` with one expected value and no range
    /// end.
    pub open spec fn equal_on(target: CompareTarget, key: Seq<u8>) -> CompareView {
        CompareView {
            result: CompareResult::Equal,
            target,
            key,
            version: None,
            create_revision: None,
            mod_revision: None,
            value: None,
            range_end: None,
        }
    }

    /// The expected value that goes on the wire: the one that the target
    /// names, where it is present. A value of another kind never goes out,
    /// whatever else the condition holds.
    pub open spec fn target_union(self) -> Option<TargetUnionView> {
        match self.target {
            CompareTarget::Version => match self.version {
                Some(v) => Some(TargetUnionView::Version(v)),
                None => None,
            },
            CompareTarget::Create => match self.create_revision {
                Some(v) => Some(TargetUnionView::CreateRevision(v)),
                None => None,
            },
            CompareTarget::Mod => match self.mod_revision {
                Some(v) => Some(TargetUnionView::ModRevision(v)),
                None => None,
            },
            CompareTarget::Value => match self.value {
                Some(v) => Some(TargetUnionView::Value(v)),
                None => None,
            },
        }
    }

    /// The wire message of the condition. A condition without a range end
    /// goes out with an empty one.
    pub open spec fn into_pb(self) -> PbCompareView {
        PbCompareView {
            result: self.result.spec_code(),
            target: self.target.spec_code(),
            key: self.key,
            range_end: match self.range_end {
                Some(end) => end,
                None => Seq::<u8>::empty(),
            },
            target_union: self.target_union(),
        }
    }
}

/// The target that an expected value on the wire belongs to.
pub open spec fn union_target(union: TargetUnionView) -> CompareTarget {
    match union {
        TargetUnionView::Version(_) => CompareTarget::Version,
        TargetUnionView::CreateRevision(_) => CompareTarget::Create,
        TargetUnionView::ModRevision(_) => CompareTarget::Mod,
        TargetUnionView::Value(_) => CompareTarget::Value,
    }
}

impl Clone for Compare {
    fn clone(&self) -> (r: Self)
        ensures
            r@ == self@,
    {
        Compare {
            result: self.result,
            target: self.target,
            key: self.key.clone(),
            version: self.version,
            create_revision: self.create_revision,
            mod_revision: self.mod_revision,
            value: match &self.value {
                Some(v) => Some(v.clone()),
                None => None,
            },
            range_end: match &self.range_end {
                Some(v) => Some(v.clone()),
                None => None,
            },
        }
    }
}

impl Compare {
    /// The modification revision of `key` equals `mv`.
    pub fn mod_eq(key: ByteSequence, mv: i64) -> (r: Self)
        ensures
            r@ == (CompareView {
                mod_revision: Some(mv),
                ..CompareView::equal_on(CompareTarget::Mod, key@)
            }),
            r@.well_formed(),
    {
        Self {
            result: CompareResult::Equal,
            target: CompareTarget::Mod,
            key,
            version: None,
            create_revision: None,
            mod_revision: Some(mv),
            value: None,
            range_end: None,
        }
    }

    /// The version of `key` equals `v`.
    pub fn version_eq(key: ByteSequence, v: i64) -> (r: Self)
        ensures
            r@ == (CompareView {
                version: Some(v),
                ..CompareView::equal_on(CompareTarget::Version, key@)
            }),
            r@.well_formed(),
    {
        Self {
            result: CompareResult::Equal,
            target: CompareTarget::Version,
            key,
            version: Some(v),
            create_revision: None,
            mod_revision: None,
            value: None,
            range_end: None,
        }
    }

    /// The value of `key` equals `val`.
    pub fn value_eq(key: ByteSequence, val: ByteSequence) -> (r: Self)
        ensures
            r@ == (CompareView {
                value: Some(val@),
                ..CompareView::equal_on(CompareTarget::Value, key@)
            }),
            r@.well_formed(),
    {
        Self {
            result: CompareResult::Equal,
            target: CompareTarget::Value,
            key,
            version: None,
            create_revision: None,
            mod_revision: None,
            value: Some(val),
            range_end: None,
        }
    }

    /// The creation revision of `key` equals `rv`.
    pub fn create_eq(key: ByteSequence, rv: i64) -> (r: Self)
        ensures
            r@ == (CompareView {
                create_revision: Some(rv),
                ..CompareView::equal_on(CompareTarget::Create, key@)
            }),
            r@.well_formed(),
    {
        Self {
            result: CompareResult::Equal,
            target: CompareTarget::Create,
            key,
            version: None,
            create_revision: Some(rv),
            mod_revision: None,
            value: None,
            range_end: None,
        }
    }

    /// A builder with nothing set.
    pub fn builder() -> (r: CompareBuilder)
        ensures
            r@ == CompareBuilderView::unset(),
            r@.consistent(),
    {
        CompareBuilder {
            result: None,
            target: None,
            key: None,
            version: None,
            create_revision: None,
            mod_revision: None,
            value: None,
            range_end: None,
        }
    }

    /// The same condition over the range of keys from its key up to `end`.
    pub fn with_range_end(self, end: ByteSequence) -> (r: Self)
        ensures
            r@ == (CompareView { range_end: Some(end@), ..self@ }),
            self@.well_formed() ==> r@.well_formed(),
    {
        let mut c = self;
        c.range_end = Some(end);
        c
    }

    /// The wire message of the condition.
    pub fn into_pb(self) -> (r: PbCompare)
        ensures
            r@ == self@.into_pb(),
    {
        let target_union = match self.target {
            CompareTarget::Version => match self.version {
                Some(v) => Some(TargetUnion::Version(v)),
                None => None,
            },
            CompareTarget::Create => match self.create_revision {
                Some(cr) => Some(TargetUnion::CreateRevision(cr)),
                None => None,
            },
            CompareTarget::Mod => match self.mod_revision {
                Some(mr) => Some(TargetUnion::ModRevision(mr)),
                None => None,
            },
            CompareTarget::Value => match self.value {
                Some(val) => Some(TargetUnion::Value(val.into_vec())),
                None => None,
            },
        };
        PbCompare {
            result: self.result.code(),
            target: self.target.code(),
            key: self.key.into_vec(),
            range_end: match self.range_end {
                Some(end) => end.into_vec(),
                None => Vec::new(),
            },
            target_union,
        }
    }
}

impl From<Compare> for PbCompare {
    /// The wire message of the condition, as `into_pb` gives it.
    fn from(value: Compare) -> (r: PbCompare)
        ensures
            r@ == value@.into_pb(),
    {
        value.into_pb()
    }
}

impl FromSpecImpl<Compare> for PbCompare {
    open spec fn obeys_from_spec() -> bool {
        false
    }

    open spec fn from_spec(value: Compare) -> PbCompare {
        arbitrary()
    }
}

/// Builder of `Compare`. It holds one expected value at most, the one set
/// last, and its target is the kind of that value.
#[derive(Debug)]
pub struct CompareBuilder {
    result: Option<CompareResult>,
    target: Option<CompareTarget>,
    key: Option<ByteSequence>,
    version: Option<i64>,
    create_revision: Option<i64>,
    mod_revision: Option<i64>,
    value: Option<ByteSequence>,
    range_end: Option<ByteSequence>,
}

/// What a `CompareBuilder` holds: each field as set so far.
pub struct CompareBuilderView {
    pub result: Option<CompareResult>,
    pub target: Option<CompareTarget>,
    pub key: Option<Seq<u8>>,
    pub version: Option<i64>,
    pub create_revision: Option<i64>,
    pub mod_revision: Option<i64>,
    pub value: Option<Seq<u8>>,
    pub range_end: Option<Seq<u8>>,
}

impl CompareBuilderView {
    /// Nothing set.
    pub open spec fn unset() -> CompareBuilderView {
        CompareBuilderView {
            result: None,
            target: None,
            key: None,
            version: None,
            create_revision: None,
            mod_revision: None,
            value: None,
            range_end: None,
        }
    }

    /// No expected value is set while there is no target, and with a target
    /// exactly the value it names.
    pub open spec fn consistent(self) -> bool {
        match self.target {
            None => self.version is None && self.create_revision is None
                && self.mod_revision is None && self.value is None,
            Some(CompareTarget::Version) => self.version is Some && self.create_revision is None
                && self.mod_revision is None && self.value is None,
            Some(CompareTarget::Create) => self.version is None && self.create_revision is Some
                && self.mod_revision is None && self.value is None,
            Some(CompareTarget::Mod) => self.version is None && self.create_revision is None
                && self.mod_revision is Some && self.value is None,
            Some(CompareTarget::Value) => self.version is None && self.create_revision is None
                && self.mod_revision is None && self.value is Some,
        }
    }

    /// The same builder without any expected value.
    pub open spec fn without_expected(self) -> CompareBuilderView {
        CompareBuilderView {
            target: None,
            version: None,
            create_revision: None,
            mod_revision: None,
            value: None,
            ..self
        }
    }

    /// Whether the relation, the target and the key are all set, as `build`
    /// needs them to be.
    pub open spec fn complete(self) -> bool {
        self.result is Some && self.target is Some && self.key is Some
    }
}

impl View for CompareBuilder {
    type V = CompareBuilderView;

    closed spec fn view(&self) -> CompareBuilderView {
        CompareBuilderView {
            result: self.result,
            target: self.target,
            key: view_of(self.key),
            version: self.version,
            create_revision: self.create_revision,
            mod_revision: self.mod_revision,
            value: view_of(self.value),
            range_end: view_of(self.range_end),
        }
    }
}

impl Default for CompareBuilder {
    fn default() -> (r: Self)
        ensures
            r@ == CompareBuilderView::unset(),
            r@.consistent(),
    {
        Compare::builder()
    }
}

impl Clone for CompareBuilder {
    fn clone(&self) -> (r: Self)
        ensures
            r@ == self@,
            r@.consistent(),
    {
        proof {
            use_type_invariant(self);
        }
        CompareBuilder {
            result: self.result,
            target: self.target,
            key: match &self.key {
                Some(k) => Some(k.clone()),
                None => None,
            },
            version: self.version,
            create_revision: self.create_revision,
            mod_revision: self.mod_revision,
            value: match &self.value {
                Some(v) => Some(v.clone()),
                None => None,
            },
            range_end: match &self.range_end {
                Some(e) => Some(e.clone()),
                None => None,
            },
        }
    }
}

impl CompareBuilder {
    #[verifier::type_invariant]
    closed spec fn holds_one_expected_value(&self) -> bool {
        self@.consistent()
    }

    /// Sets the relation.
    pub fn result(self, result: CompareResult) -> (r: Self)
        ensures
            r@ == (CompareBuilderView { result: Some(result), ..self@ }),
            r@.consistent(),
    {
        proof {
            use_type_invariant(&self);
        }
        CompareBuilder {
            result: Some(result),
            target: self.target,
            key: self.key,
            version: self.version,
            create_revision: self.create_revision,
            mod_revision: self.mod_revision,
            value: self.value,
            range_end: self.range_end,
        }
    }

    /// Sets the key.
    pub fn key(self, key: ByteSequence) -> (r: Self)
        ensures
            r@ == (CompareBuilderView { key: Some(key@), ..self@ }),
            r@.consistent(),
    {
        proof {
            use_type_invariant(&self);
        }
        CompareBuilder {
            result: self.result,
            target: self.target,
            key: Some(key),
            version: self.version,
            create_revision: self.create_revision,
            mod_revision: self.mod_revision,
            value: self.value,
            range_end: self.range_end,
        }
    }

    /// Sets the expected version, and the target with it. An expected value
    /// set earlier is dropped.
    pub fn version(self, version: i64) -> (r: Self)
        ensures
            r@ == (CompareBuilderView {
                version: Some(version),
                target: Some(CompareTarget::Version),
                ..self@.without_expected()
            }),
            r@.consistent(),
    {
        CompareBuilder {
            result: self.result,
            target: Some(CompareTarget::Version),
            key: self.key,
            version: Some(version),
            create_revision: None,
            mod_revision: None,
            value: None,
            range_end: self.range_end,
        }
    }

    /// Sets the expected creation revision, and the target with it. An
    /// expected value set earlier is dropped.
    pub fn create_revision(self, create_revision: i64) -> (r: Self)
        ensures
            r@ == (CompareBuilderView {
                create_revision: Some(create_revision),
                target: Some(CompareTarget::Create),
                ..self@.without_expected()
            }),
            r@.consistent(),
    {
        CompareBuilder {
            result: self.result,
            target: Some(CompareTarget::Create),
            key: self.key,
            version: None,
            create_revision: Some(create_revision),
            mod_revision: None,
            value: None,
            range_end: self.range_end,
        }
    }

    /// Sets the expected modification revision, and the target with it. An
    /// expected value set earlier is dropped.
    pub fn mod_revision(self, mod_revision: i64) -> (r: Self)
        ensures
            r@ == (CompareBuilderView {
                mod_revision: Some(mod_revision),
                target: Some(CompareTarget::Mod),
                ..self@.without_expected()
            }),
            r@.consistent(),
    {
        CompareBuilder {
            result: self.result,
            target: Some(CompareTarget::Mod),
            key: self.key,
            version: None,
            create_revision: None,
            mod_revision: Some(mod_revision),
            value: None,
            range_end: self.range_end,
        }
    }

    /// Sets the expected value, and the target with it. An expected value set
    /// earlier is dropped.
    pub fn value(self, value: ByteSequence) -> (r: Self)
        ensures
            r@ == (CompareBuilderView {
                value: Some(value@),
                target: Some(CompareTarget::Value),
                ..self@.without_expected()
            }),
            r@.consistent(),
    {
        CompareBuilder {
            result: self.result,
            target: Some(CompareTarget::Value),
            key: self.key,
            version: None,
            create_revision: None,
            mod_revision: None,
            value: Some(value),
            range_end: self.range_end,
        }
    }

    /// Sets the end of the range of keys.
    pub fn range_end(self, range_end: ByteSequence) -> (r: Self)
        ensures
            r@ == (CompareBuilderView { range_end: Some(range_end@), ..self@ }),
            r@.consistent(),
    {
        proof {
            use_type_invariant(&self);
        }
        CompareBuilder {
            result: self.result,
            target: self.target,
            key: self.key,
            version: self.version,
            create_revision: self.create_revision,
            mod_revision: self.mod_revision,
            value: self.value,
            range_end: Some(range_end),
        }
    }

    /// The condition, each field as it was set: it holds exactly one expected
    /// value, of the kind its target names. The relation, the target and the
    /// key must have been set.
    pub fn build(self) -> (r: Compare)
        requires
            self@.complete(),
        ensures
            r@ == (CompareView {
                result: self@.result->0,
                target: self@.target->0,
                key: self@.key->0,
                version: self@.version,
                create_revision: self@.create_revision,
                mod_revision: self@.mod_revision,
                value: self@.value,
                range_end: self@.range_end,
            }),
            r@.well_formed(),
    {
        proof {
            use_type_invariant(&self);
        }
        Compare {
            result: self.result.unwrap(),
            target: self.target.unwrap(),
            key: self.key.unwrap(),
            version: self.version,
            create_revision: self.create_revision,
            mod_revision: self.mod_revision,
            value: self.value,
            range_end: self.range_end,
        }
    }
}

/// Once a relation has been written down and read again it is the same
/// relation, and so for its wire number.
pub proof fn lemma_compare_result_round_trip(relation: CompareResult)
    ensures
        CompareResult::spec_parse(relation.spec_symbol()) == Some(relation),
        CompareResult::spec_from_code(relation.spec_code()) == Some(relation),
{
    reveal_strlit("==");
    reveal_strlit(">");
    reveal_strlit("<");
    reveal_strlit("!=");
    assert("=="@.len() == 2 && ">"@.len() == 1 && "<"@.len() == 1 && "!="@.len() == 2);
    assert(">"@[0] == '>' && "<"@[0] == '<' && "=="@[0] == '=' && "!="@[0] == '!');
}

/// Equal conditions go on the wire as equal messages.
pub proof fn lemma_compare_into_pb_deterministic(a: Compare, b: Compare)
    requires
        a@ == b@,
    ensures
        a@.into_pb() == b@.into_pb(),
{
}

/// A target read back from its wire number is the same target.
pub proof fn lemma_compare_target_round_trip(target: CompareTarget)
    ensures
        CompareTarget::spec_from_code(target.spec_code()) == Some(target),
{
}

/// Whatever a condition holds, an expected value that goes on the wire is of
/// the kind the condition's target names; and a well-formed condition goes on
/// the wire with one.
pub proof fn lemma_union_matches_target(c: CompareView)
    ensures
        c.into_pb().target_union matches Some(u) ==> union_target(u) == c.target,
        c.well_formed() ==> c.into_pb().target_union is Some,
{
}

/// Of two expected values set on a builder one after the other only the
/// second is kept, and the target is its kind: however its expected values
/// were set, a builder is consistent, and what it builds is well formed.
pub proof fn lemma_last_expected_value_wins(b: CompareBuilderView, first: i64, second: Seq<u8>)
    ensures
        ({
            let after_first = CompareBuilderView {
                version: Some(first),
                target: Some(CompareTarget::Version),
                ..b.without_expected()
            };
            let after_second = CompareBuilderView {
                value: Some(second),
                target: Some(CompareTarget::Value),
                ..after_first.without_expected()
            };
            after_first.consistent() && after_second.consistent() && after_second.version is None
                && after_second.value == Some(second) && after_second.target == Some(
                CompareTarget::Value,
            )
        }),
{
}

} // verus!
