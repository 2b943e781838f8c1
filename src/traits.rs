//! Naming conventions that tell test functions apart, and the filter that
//! selects tests.
use vstd::prelude::*;
use vstd::string::StringSliceAdditionalSpecFns;
use vstd::utf8::encode_utf8;

verus! {

/// Selects which tests, contracts and paths run.
pub trait TestFilter {
    /// Whether the test should be included.
    fn matches_test(&self, test_name: &str) -> bool;

    /// Whether the contract should be included.
    fn matches_contract(&self, contract_name: &str) -> bool;

    /// Whether a contract at this path should be included.
    fn matches_path(&self, path: &str) -> bool;
}

/// `b` begins with `prefix`.
pub open spec fn has_prefix(b: Seq<u8>, prefix: Seq<u8>) -> bool {
    prefix.len() <= b.len() && b.subrange(0, prefix.len() as int) == prefix
}

/// "invariant"
pub open spec fn invariant_prefix() -> Seq<u8> {
    seq![105u8, 110, 118, 97, 114, 105, 97, 110, 116]
}

/// "test"
pub open spec fn test_prefix() -> Seq<u8> {
    seq![116u8, 101, 115, 116]
}

/// "Test"
pub open spec fn capital_test_prefix() -> Seq<u8> {
    seq![84u8, 101, 115, 116]
}

/// "testFail"
pub open spec fn test_fail_prefix() -> Seq<u8> {
    seq![116u8, 101, 115, 116, 70, 97, 105, 108]
}

/// "skip"
pub open spec fn skip_prefix() -> Seq<u8> {
    seq![115u8, 107, 105, 112]
}

/// "setup"
pub open spec fn setup_chars() -> Seq<char> {
    seq!['s', 'e', 't', 'u', 'p']
}

/// A name of an invariant test starts with "invariant".
pub open spec fn is_invariant_name(b: Seq<u8>) -> bool {
    has_prefix(b, invariant_prefix())
}

/// A test name starts with "test".
pub open spec fn is_test_name(b: Seq<u8>) -> bool {
    has_prefix(b, test_prefix())
}

/// A test expected to fail starts with "testFail".
pub open spec fn is_test_fail_name(b: Seq<u8>) -> bool {
    has_prefix(b, test_fail_prefix())
}

/// A skipped test is longer than "skip", starts with it, and continues
/// with "test" or "Test".
pub open spec fn is_skipped_name(b: Seq<u8>) -> bool {
    b.len() > 4 && has_prefix(b, skip_prefix()) && (has_prefix(b.subrange(4, b.len() as int), test_prefix())
        || has_prefix(b.subrange(4, b.len() as int), capital_test_prefix()))
}

/// The lowercase form of a string, as `str::to_lowercase` gives it.
pub uninterp spec fn lowercase_of(s: Seq<char>) -> Seq<char>;

/// Relies on `str::to_lowercase`: the result depends on the characters alone.
#[verifier::external_body]
fn lowercase(s: &str) -> (r: String)
    ensures
        r@ == lowercase_of(s@),
{
    s.to_lowercase()
}

/// Whether `b` begins with the bytes of `prefix`.
pub fn starts_with_bytes(b: &[u8], prefix: &[u8]) -> (r: bool)
    ensures
        r == has_prefix(b@, prefix@),
{
    if prefix.len() > b.len() {
        return false;
    }
    let mut i: usize = 0;
    while i < prefix.len()
        invariant
            prefix@.len() <= b@.len(),
            i <= prefix@.len(),
            forall|j: int| 0 <= j < i ==> b@[j] == prefix@[j],
        decreases prefix@.len() - i,
    {
        if b[i] != prefix[i] {
            assert(b@.subrange(0, prefix@.len() as int)[i as int] != prefix@[i as int]);
            return false;
        }
        i = i + 1;
    }
    assert(b@.subrange(0, prefix@.len() as int) =~= prefix@);
    true
}

pub fn is_invariant_name_bytes(b: &[u8]) -> (r: bool)
    ensures
        r == is_invariant_name(b@),
{
    let p: Vec<u8> = vec![105u8, 110, 118, 97, 114, 105, 97, 110, 116];
    assert(p@ =~= invariant_prefix());
    starts_with_bytes(b, p.as_slice())
}

pub fn is_test_name_bytes(b: &[u8]) -> (r: bool)
    ensures
        r == is_test_name(b@),
{
    let p: Vec<u8> = vec![116u8, 101, 115, 116];
    assert(p@ =~= test_prefix());
    starts_with_bytes(b, p.as_slice())
}

pub fn is_test_fail_name_bytes(b: &[u8]) -> (r: bool)
    ensures
        r == is_test_fail_name(b@),
{
    let p: Vec<u8> = vec![116u8, 101, 115, 116, 70, 97, 105, 108];
    assert(p@ =~= test_fail_prefix());
    starts_with_bytes(b, p.as_slice())
}

pub fn is_skipped_name_bytes(b: &[u8]) -> (r: bool)
    ensures
        r == is_skipped_name(b@),
{
    let skip: Vec<u8> = vec![115u8, 107, 105, 112];
    assert(skip@ =~= skip_prefix());
    if b.len() > 4 && starts_with_bytes(b, skip.as_slice()) {
        let rem = slice_from(b, 4);
        let t: Vec<u8> = vec![116u8, 101, 115, 116];
        let c: Vec<u8> = vec![84u8, 101, 115, 116];
        assert(t@ =~= test_prefix());
        assert(c@ =~= capital_test_prefix());
        return starts_with_bytes(rem.as_slice(), t.as_slice()) || starts_with_bytes(rem.as_slice(), c.as_slice());
    }
    false
}

/// The bytes of `b` from position `start` on.
fn slice_from(b: &[u8], start: usize) -> (r: Vec<u8>)
    requires
        start <= b@.len(),
    ensures
        r@ == b@.subrange(start as int, b@.len() as int),
{
    let mut r: Vec<u8> = Vec::new();
    let mut i: usize = start;
    while i < b.len()
        invariant
            start <= i <= b@.len(),
            r@ == b@.subrange(start as int, i as int),
        decreases b@.len() - i,
    {
        r.push(b[i]);
        i = i + 1;
        assert(r@ =~= b@.subrange(start as int, i as int));
    }
    r
}

/// Whether an already lowercased name is "setup".
pub fn is_setup_lowercased(lowered: &String) -> (r: bool)
    ensures
        r == (lowered@ == setup_chars()),
{
    let setup = "setup".to_owned();
    proof {
        reveal_strlit("setup");
        assert(setup@ =~= setup_chars());
    }
    *lowered == setup
}

/// Tells test functions apart by their names.
pub trait TestFunctionExt {
    /// The bytes of the function's name.
    spec fn name_bytes(&self) -> Seq<u8>;

    /// The characters of the function's name.
    spec fn name_chars(&self) -> Seq<char>;

    /// Whether fuzz tests can be recognised for this kind of function.
    spec fn knows_fuzz_tests(&self) -> bool;

    /// Whether the function is a fuzz test, where that can be told.
    spec fn spec_is_fuzz_test(&self) -> bool;

    /// Whether this function should be executed as an invariant test.
    fn is_invariant_test(&self) -> (r: bool)
        ensures
            r == is_invariant_name(self.name_bytes()),
    ;

    /// Whether this function should be executed as a fuzz test.
    fn is_fuzz_test(&self) -> (r: bool)
        requires
            self.knows_fuzz_tests(),
        ensures
            r == self.spec_is_fuzz_test(),
    ;

    /// Whether this function is a test.
    fn is_test(&self) -> (r: bool)
        ensures
            r == is_test_name(self.name_bytes()),
    ;

    /// Whether this function is a test that should fail.
    fn is_test_fail(&self) -> (r: bool)
        ensures
            r == is_test_fail_name(self.name_bytes()),
    ;

    /// Whether this function is a test that should be skipped.
    fn is_test_skipped(&self) -> (r: bool)
        ensures
            r == is_skipped_name(self.name_bytes()),
    ;

    /// Whether this function is a `setUp` function.
    fn is_setup(&self) -> (r: bool)
        ensures
            r == (lowercase_of(self.name_chars()) == setup_chars()),
    ;
}

impl TestFunctionExt for str {
    open spec fn name_bytes(&self) -> Seq<u8> {
        self.spec_bytes()
    }

    open spec fn name_chars(&self) -> Seq<char> {
        self@
    }

    /// Names alone do not mark fuzz tests.
    open spec fn knows_fuzz_tests(&self) -> bool {
        false
    }

    open spec fn spec_is_fuzz_test(&self) -> bool {
        false
    }

    fn is_invariant_test(&self) -> (r: bool) {
        is_invariant_name_bytes(self.as_bytes())
    }

    fn is_fuzz_test(&self) -> (r: bool) {
        false
    }

    fn is_test(&self) -> (r: bool) {
        is_test_name_bytes(self.as_bytes())
    }

    fn is_test_fail(&self) -> (r: bool) {
        is_test_fail_name_bytes(self.as_bytes())
    }

    fn is_test_skipped(&self) -> (r: bool) {
        is_skipped_name_bytes(self.as_bytes())
    }

    fn is_setup(&self) -> (r: bool) {
        let lowered = lowercase(self);
        is_setup_lowercased(&lowered)
    }
}

impl TestFunctionExt for String {
    open spec fn name_bytes(&self) -> Seq<u8> {
        encode_utf8(self@)
    }

    open spec fn name_chars(&self) -> Seq<char> {
        self@
    }

    open spec fn knows_fuzz_tests(&self) -> bool {
        false
    }

    open spec fn spec_is_fuzz_test(&self) -> bool {
        false
    }

    fn is_invariant_test(&self) -> (r: bool) {
        self.as_str().is_invariant_test()
    }

    fn is_fuzz_test(&self) -> (r: bool) {
        false
    }

    fn is_test(&self) -> (r: bool) {
        self.as_str().is_test()
    }

    fn is_test_fail(&self) -> (r: bool) {
        self.as_str().is_test_fail()
    }

    fn is_test_skipped(&self) -> (r: bool) {
        self.as_str().is_test_skipped()
    }

    fn is_setup(&self) -> (r: bool) {
        self.as_str().is_setup()
    }
}

/// A contract function: its name and the types of its inputs.
pub struct Function {
    pub name: String,
    pub inputs: Vec<String>,
}

impl TestFunctionExt for Function {
    open spec fn name_bytes(&self) -> Seq<u8> {
        encode_utf8(self.name@)
    }

    open spec fn name_chars(&self) -> Seq<char> {
        self.name@
    }

    open spec fn knows_fuzz_tests(&self) -> bool {
        true
    }

    /// Functions with inputs are fuzz tests: the inputs get fuzzed.
    open spec fn spec_is_fuzz_test(&self) -> bool {
        self.inputs@.len() > 0
    }

    fn is_invariant_test(&self) -> (r: bool) {
        self.name.is_invariant_test()
    }

    fn is_fuzz_test(&self) -> (r: bool) {
        self.inputs.len() > 0
    }

    fn is_test(&self) -> (r: bool) {
        self.name.is_test()
    }

    fn is_test_fail(&self) -> (r: bool) {
        self.name.is_test_fail()
    }

    fn is_test_skipped(&self) -> (r: bool) {
        self.name.is_test_skipped()
    }

    fn is_setup(&self) -> (r: bool) {
        self.name.is_setup()
    }
}

} // verus!
