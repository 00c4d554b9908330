use vstd::prelude::*;
use vstd::string::StringExecFns;
use dashmap::DashMap;
use std::future::Future;
use std::pin::Pin;
use std::sync::Arc;

verus! {

/// Relies on dashmap::DashMap as an opaque type: the registry's two maps
/// are held in it, and what they hold is named by the functions below.
#[verifier::external_type_specification]
#[verifier::external_body]
#[verifier::reject_recursive_types(K)]
#[verifier::reject_recursive_types(V)]
#[verifier::reject_recursive_types(S)]
pub struct ExDashMap<K, V, S>(DashMap<K, V, S>);

/// The declaration of an operation: its name, and the shape of its
/// arguments, which the registry keeps but does not interpret.
#[derive(Debug, Clone)]
pub struct Signature {
    pub Name: String,
    pub Shape: String,
}

/// The failure of a bound operation, as the operation reported it.
#[derive(Debug, Clone)]
pub struct ActionError {
    pub Message: String,
}

/// A bound operation with its concrete type erased: it takes a sequence of
/// JSON values and gives a future of a JSON value or an error. Verus cannot
/// represent the boxed closure and future types, so the value is opaque.
#[verifier::external_body]
pub struct Callable {
    pub Call: Arc<
        dyn Fn(Vec<serde_json::Value>) -> Pin<
            Box<dyn Future<Output = Result<serde_json::Value, ActionError>> + Send>,
        > + Send + Sync,
    >,
}

impl Clone for Callable {
    /// Relies on Arc::clone: a second handle on the same closure.
    #[verifier::external_body]
    fn clone(&self) -> (r: Callable) {
        Callable { Call: Arc::clone(&self.Call) }
    }
}

/// A concurrent map from operation names to signatures.
pub type SignatureMap = DashMap<String, Signature>;

/// A concurrent map from operation names to bound operations.
pub type FunctionMap = DashMap<String, Callable>;

/// The entries of a map from operation names to signatures.
pub uninterp spec fn signatures_in(m: DashMap<String, Signature>) -> Map<Seq<char>, Signature>;

/// The entries of a map from operation names to bound operations.
pub uninterp spec fn functions_in(m: DashMap<String, Callable>) -> Map<Seq<char>, Callable>;

/// Relies on DashMap::new: the map starts with no entries.
#[verifier::external_body]
fn new_signature_map() -> (r: SignatureMap)
    ensures
        signatures_in(r).dom() == Set::<Seq<char>>::empty(),
{
    DashMap::new()
}

/// Relies on DashMap::new: the map starts with no entries.
#[verifier::external_body]
fn new_function_map() -> (r: FunctionMap)
    ensures
        functions_in(r).dom() == Set::<Seq<char>>::empty(),
{
    DashMap::new()
}

/// Relies on DashMap::insert: the key is bound to the value, replacing any
/// earlier value; the other entries stay.
#[verifier::external_body]
fn insert_signature(m: &mut DashMap<String, Signature>, key: String, value: Signature)
    ensures
        signatures_in(*final(m)) == signatures_in(*old(m)).insert(key@, value),
{
    m.insert(key, value);
}

/// Relies on DashMap::insert: the key is bound to the value, replacing any
/// earlier value; the other entries stay.
#[verifier::external_body]
fn insert_function(m: &mut DashMap<String, Callable>, key: String, value: Callable)
    ensures
        functions_in(*final(m)) == functions_in(*old(m)).insert(key@, value),
{
    m.insert(key, value);
}

/// Relies on DashMap::contains_key: whether the key has an entry.
#[verifier::external_body]
fn has_signature(m: &DashMap<String, Signature>, key: &str) -> (r: bool)
    ensures
        r == signatures_in(*m).contains_key(key@),
{
    m.contains_key(key)
}

/// Relies on DashMap::get: the entry of the key, if it has one; the handle
/// is cloned out of the map's guard.
#[verifier::external_body]
fn get_function(m: &DashMap<String, Callable>, key: &str) -> (r: Option<Callable>)
    ensures
        r is Some <==> functions_in(*m).contains_key(key@),
        r is Some ==> r->0 == functions_in(*m)[key@],
{
    m.get(key).map(|entry| entry.value().clone())
}

/// The message of the error that binding an operation to `name` gives when
/// `name` has no signature.
pub open spec fn missing_signature(name: Seq<char>) -> Seq<char> {
    "No signature found for function: "@ + name
}

/// The signatures after declaring `sig`: it replaces an earlier one of the
/// same name.
pub open spec fn signed(sigs: Map<Seq<char>, Signature>, sig: Signature) -> Map<Seq<char>, Signature> {
    sigs.insert(sig.Name@, sig)
}

/// The bound operations after binding `f` to `name`, or `None` when `name`
/// has no signature and binding fails.
pub open spec fn bound(
    sigs: Map<Seq<char>, Signature>,
    funs: Map<Seq<char>, Callable>,
    name: Seq<char>,
    f: Callable,
) -> Option<Map<Seq<char>, Callable>> {
    if sigs.contains_key(name) {
        Some(funs.insert(name, f))
    } else {
        None
    }
}

/// The operation bound to `name`, if any.
pub open spec fn lookup(funs: Map<Seq<char>, Callable>, name: Seq<char>) -> Option<Callable> {
    if funs.contains_key(name) {
        Some(funs[name])
    } else {
        None
    }
}

/// Binding needs a signature: without one for `name`, binding fails (and
/// `Add` leaves the registry unchanged); right after `sig` is declared,
/// binding `f` to its name succeeds and a lookup of that name gives `f`.
pub proof fn lemma_bind_needs_signature(
    sigs: Map<Seq<char>, Signature>,
    funs: Map<Seq<char>, Callable>,
    name: Seq<char>,
    sig: Signature,
    f: Callable,
)
    ensures
        !sigs.contains_key(name) ==> bound(sigs, funs, name, f) is None,
        bound(signed(sigs, sig), funs, sig.Name@, f) matches Some(after)
            && lookup(after, sig.Name@) == Some(f),
{
    let after = funs.insert(sig.Name@, f);
    assert(signed(sigs, sig).contains_key(sig.Name@));
    assert(after.contains_key(sig.Name@) && after[sig.Name@] == f);
}

/// A registry of operations: a signature declared under each name, and the
/// operations bound to names that have a signature.
pub struct Struct {
    Signature: DashMap<String, Signature>,
    Function: DashMap<String, Callable>,
}

impl Struct {
    /// The declared signatures, by name.
    pub closed spec fn signatures(&self) -> Map<Seq<char>, Signature> {
        signatures_in(self.Signature)
    }

    /// The bound operations, by name.
    pub closed spec fn functions(&self) -> Map<Seq<char>, Callable> {
        functions_in(self.Function)
    }

    /// Every bound name has a declared signature.
    pub open spec fn wf(&self) -> bool {
        forall|n: Seq<char>| #[trigger]
            self.functions().contains_key(n) ==> self.signatures().contains_key(n)
    }

    /// An empty registry.
    pub fn New() -> (r: Struct)
        ensures
            r.wf(),
            r.signatures() == Map::<Seq<char>, Signature>::empty(),
            r.functions() == Map::<Seq<char>, Callable>::empty(),
    {
        Struct { Signature: new_signature_map(), Function: new_function_map() }
    }

    /// Declares `signature` under its name, replacing an earlier declaration
    /// of that name.
    pub fn Sign(&mut self, signature: Signature) -> (r: &mut Struct)
        requires
            old(self).wf(),
        ensures
            r.wf(),
            r.signatures() == signed(old(self).signatures(), signature),
            r.functions() == old(self).functions(),
            *final(self) == *final(r),
    {
        let name = signature.Name.clone();
        insert_signature(&mut self.Signature, name, signature);
        assert forall|n: Seq<char>| #[trigger]
            self.functions().contains_key(n) implies self.signatures().contains_key(n) by {
            assert(old(self).functions().contains_key(n));
        }
        self
    }

    /// Binds `function` to `name`, replacing an operation bound there before.
    /// Fails, and leaves the registry as it was, when `name` has no signature.
    pub fn Add(&mut self, Name: &str, Function: Callable) -> (r: Result<&mut Struct, String>)
        requires
            old(self).wf(),
        ensures
            r is Ok <==> old(self).signatures().contains_key(Name@),
            r is Ok <==> bound(old(self).signatures(), old(self).functions(), Name@, Function) is Some,
            r matches Ok(s) ==> {
                &&& s.wf()
                &&& bound(old(self).signatures(), old(self).functions(), Name@, Function) == Some(
                    s.functions(),
                )
                &&& s.signatures() == old(self).signatures()
                &&& *final(self) == *final(s)
            },
            r matches Err(e) ==> e@ == missing_signature(Name@) && *final(self) == *old(self),
    {
        if !has_signature(&self.Signature, Name) {
            proof {
                reveal_strlit("No signature found for function: ");
            }
            return Err(String::from_str("No signature found for function: ").concat(Name));
        }
        insert_function(&mut self.Function, Name.to_owned(), Function);
        assert forall|n: Seq<char>| #[trigger]
            self.functions().contains_key(n) implies self.signatures().contains_key(n) by {
            if n != Name@ {
                assert(old(self).functions().contains_key(n));
            }
        }
        Ok(self)
    }

    /// Looks up the operation bound to `name`. The entry stays in the
    /// registry: this is a lookup, not a removal.
    pub fn Remove(&self, Name: &str) -> (r: Option<Callable>)
        ensures
            r == lookup(self.functions(), Name@),
    {
        get_function(&self.Function, Name)
    }
}

} // verus!
