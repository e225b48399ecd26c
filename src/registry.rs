use crate::naming::{camel_of, to_camel};
use crate::types::TypeRef;
use vstd::prelude::*;

verus! {

/// A parameter as declared: an optional name and its type.
#[derive(Debug)]
pub struct Param {
    pub name: Option<String>,
    pub ty: TypeRef,
}

/// A method as it is declared, before validation.
#[derive(Debug)]
pub struct Declaration {
    /// The name of the handler; the wire name unless overridden.
    pub fn_name: String,
    pub rpc_name_override: Option<String>,
    pub notification: bool,
    pub positional: bool,
    pub params: Vec<Param>,
    pub result: Option<TypeRef>,
    pub docs: Option<String>,
}

/// Options that hold for the whole service.
#[derive(Debug)]
pub struct RootOptions {
    /// Treat every method as positional.
    pub all_positional: bool,
    /// Where client stubs go; no client stubs when absent.
    pub ts_outdir: Option<String>,
    /// Where the schema document goes; no schema when absent.
    pub schema_outdir: Option<String>,
}

/// How the parameters of a method travel on the wire.
#[derive(Debug)]
pub enum ParamShape {
    /// A JSON array, decoded element by element.
    Positional(Vec<Param>),
    /// A single JSON object (or nothing), decoded as one value.
    Structured(Option<Param>),
}

/// A validated method.
#[derive(Debug)]
pub struct MethodDescriptor {
    pub rpc_name: String,
    pub exposed_name: String,
    pub params: ParamShape,
    pub result: Option<TypeRef>,
    pub is_notification: bool,
    pub docs: Option<String>,
}

/// The validated set of methods of one service, and the outputs it asks for.
#[derive(Debug)]
pub struct Registry {
    pub methods: Vec<MethodDescriptor>,
    pub client_stub: bool,
    pub schema: bool,
}

/// Which rule a declaration breaks.
#[derive(Clone, Copy, Debug, PartialEq, Eq, Structural)]
pub enum ValidationKind {
    DuplicateName,
    NotificationResult,
    StructuredArity,
}

/// Why a set of declarations was refused; each carries the wire name of the
/// offending declaration.
#[derive(Debug)]
pub enum ValidationError {
    DuplicateName(String),
    NotificationResult(String),
    StructuredArity(String),
    NoOutputTarget,
}

pub open spec fn rpc_name_of(d: Declaration) -> Seq<char> {
    match d.rpc_name_override {
        Some(n) => n@,
        None => d.fn_name@,
    }
}

pub open spec fn is_positional(d: Declaration, all_positional: bool) -> bool {
    d.positional || all_positional
}

pub open spec fn has_output(root: RootOptions) -> bool {
    root.ts_outdir is Some || root.schema_outdir is Some
}

/// The rule that declaration `i` breaks, given the declarations before it.
pub open spec fn fault_of(decls: Seq<Declaration>, all_positional: bool, i: int) -> Option<
    ValidationKind,
> {
    let d = decls[i];
    if d.notification && d.result is Some && !(d.result->Some_0 is Unit) {
        Some(ValidationKind::NotificationResult)
    } else if !is_positional(d, all_positional) && d.params.len() > 1 {
        Some(ValidationKind::StructuredArity)
    } else if exists|j: int| 0 <= j < i && #[trigger] rpc_name_of(decls[j]) == rpc_name_of(d) {
        Some(ValidationKind::DuplicateName)
    } else {
        None
    }
}

/// The first fault among the first `n` declarations, with its index.
pub open spec fn first_fault(decls: Seq<Declaration>, all_positional: bool, n: nat) -> Option<
    (ValidationKind, int),
>
    decreases n,
{
    if n == 0 {
        None
    } else {
        match first_fault(decls, all_positional, (n - 1) as nat) {
            Some(f) => Some(f),
            None => match fault_of(decls, all_positional, n - 1) {
                Some(k) => Some((k, n - 1)),
                None => None,
            },
        }
    }
}

pub open spec fn reports(e: ValidationError, k: ValidationKind, name: Seq<char>) -> bool {
    match e {
        ValidationError::DuplicateName(n) => k == ValidationKind::DuplicateName && n@ == name,
        ValidationError::NotificationResult(n) => k == ValidationKind::NotificationResult && n@
            == name,
        ValidationError::StructuredArity(n) => k == ValidationKind::StructuredArity && n@ == name,
        ValidationError::NoOutputTarget => false,
    }
}

/// The descriptor that a valid declaration becomes.
pub open spec fn describes(m: MethodDescriptor, d: Declaration, all_positional: bool) -> bool {
    &&& m.rpc_name@ == rpc_name_of(d)
    &&& m.exposed_name@ == camel_of(rpc_name_of(d))
    &&& m.is_notification == d.notification
    &&& m.docs == d.docs
    &&& m.result == (if d.notification {
        None
    } else {
        match d.result {
            Some(t) => Some(t),
            None => Some(TypeRef::Unit),
        }
    })
    &&& m.params == (if is_positional(d, all_positional) {
        ParamShape::Positional(d.params)
    } else {
        ParamShape::Structured(
            if d.params.len() == 0 {
                None
            } else {
                Some(d.params[0])
            },
        )
    })
}

pub open spec fn names_unique(ms: Seq<MethodDescriptor>) -> bool {
    forall|i: int, j: int|
        0 <= i < ms.len() && 0 <= j < ms.len() && i != j ==> #[trigger] ms[i].rpc_name@
            != #[trigger] ms[j].rpc_name@
}

pub open spec fn notifications_silent(ms: Seq<MethodDescriptor>) -> bool {
    forall|i: int| 0 <= i < ms.len() && #[trigger] ms[i].is_notification ==> ms[i].result is None
}

impl Registry {
    /// A registry is valid when wire names are unique, notifications have no
    /// result, and some output besides the dispatcher is asked for.
    pub open spec fn wf(&self) -> bool {
        &&& names_unique(self.methods@)
        &&& notifications_silent(self.methods@)
        &&& (self.client_stub || self.schema)
    }

    /// What `build` makes of `decls` under `root`, when it succeeds.
    pub open spec fn built_from(&self, decls: Seq<Declaration>, root: RootOptions) -> bool {
        &&& self.methods@.len() == decls.len()
        &&& forall|i: int|
            0 <= i < decls.len() ==> describes(
                #[trigger] self.methods@[i],
                decls[i],
                root.all_positional,
            )
        &&& self.client_stub == root.ts_outdir is Some
        &&& self.schema == root.schema_outdir is Some
    }
}

/// What `build` returns for `decls` under `root`.
pub open spec fn build_outcome(
    decls: Seq<Declaration>,
    root: RootOptions,
    r: Result<Registry, ValidationError>,
) -> bool {
    &&& !has_output(root) ==> r is Err && r->Err_0 is NoOutputTarget
    &&& has_output(root) ==> match first_fault(decls, root.all_positional, decls.len()) {
        Some((k, i)) => r is Err && reports(r->Err_0, k, rpc_name_of(decls[i])),
        None => r is Ok && r->Ok_0.wf() && r->Ok_0.built_from(decls, root),
    }
}

/// Once a fault is found among the first `m` declarations, it stays the first.
pub proof fn lemma_first_fault_stable(decls: Seq<Declaration>, all_positional: bool, m: nat, n: nat)
    requires
        m <= n,
        first_fault(decls, all_positional, m) is Some,
    ensures
        first_fault(decls, all_positional, n) == first_fault(decls, all_positional, m),
    decreases n - m,
{
    if m < n {
        lemma_first_fault_stable(decls, all_positional, m, (n - 1) as nat);
    }
}

fn wire_name(d: &Declaration) -> (r: String)
    ensures
        r@ == rpc_name_of(*d),
{
    match &d.rpc_name_override {
        Some(n) => n.clone(),
        None => d.fn_name.clone(),
    }
}

fn contains_name(names: &Vec<String>, name: &String) -> (r: bool)
    ensures
        r == exists|j: int| 0 <= j < names@.len() && #[trigger] names@[j]@ == name@,
{
    let mut j: usize = 0;
    while j < names.len()
        invariant
            j <= names@.len(),
            forall|k: int| 0 <= k < j ==> #[trigger] names@[k]@ != name@,
        decreases names.len() - j,
    {
        if names[j] == *name {
            return true;
        }
        j += 1;
    }
    false
}

/// Validates the declarations and turns them into a registry.
///
/// A missing output target is reported first; otherwise the first declaration
/// that breaks a rule, in declaration order, is reported.
pub fn build(decls: Vec<Declaration>, root: RootOptions) -> (r: Result<Registry, ValidationError>)
    ensures
        build_outcome(decls@, root, r),
{
    if root.ts_outdir.is_none() && root.schema_outdir.is_none() {
        return Err(ValidationError::NoOutputTarget);
    }
    let ghost orig = decls@;
    let all = root.all_positional;
    let mut names: Vec<String> = Vec::new();
    let mut i: usize = 0;
    while i < decls.len()
        invariant
            i <= decls@.len(),
            decls@ == orig,
            has_output(root),
            all == root.all_positional,
            names@.len() == i,
            forall|k: int| 0 <= k < i ==> #[trigger] names@[k]@ == rpc_name_of(orig[k]),
            forall|k: int| 0 <= k < i ==> #[trigger] fault_of(orig, all, k) is None,
            first_fault(orig, all, i as nat) is None,
        decreases decls.len() - i,
    {
        let d = &decls[i];
        let name = wire_name(d);
        let silent_ok = match &d.result {
            Some(t) => !d.notification || t.is_unit(),
            None => true,
        };
        if !silent_ok {
            proof { lemma_first_fault_stable(orig, all, (i + 1) as nat, orig.len()); }
            return Err(ValidationError::NotificationResult(name));
        }
        if !(d.positional || all) && d.params.len() > 1 {
            proof { lemma_first_fault_stable(orig, all, (i + 1) as nat, orig.len()); }
            return Err(ValidationError::StructuredArity(name));
        }
        if contains_name(&names, &name) {
            proof {
                let j = choose|j: int| 0 <= j < names@.len() && #[trigger] names@[j]@ == name@;
                assert(rpc_name_of(orig[j]) == rpc_name_of(orig[i as int]));
                lemma_first_fault_stable(orig, all, (i + 1) as nat, orig.len());
            }
            return Err(ValidationError::DuplicateName(name));
        }
        proof {
            assert forall|j: int| 0 <= j < i implies #[trigger] rpc_name_of(orig[j]) != rpc_name_of(
                orig[i as int],
            ) by {
                assert(names@[j]@ == rpc_name_of(orig[j]));
            }
        }
        names.push(name);
        i += 1;
    }
    let n = decls.len();
    let mut rest = decls;
    let mut methods: Vec<MethodDescriptor> = Vec::new();
    let mut k: usize = 0;
    while rest.len() > 0
        invariant
            k + rest@.len() == orig.len(),
            orig.len() == n,
            rest@ == orig.subrange(k as int, orig.len() as int),
            methods@.len() == k,
            all == root.all_positional,
            forall|m: int| 0 <= m < orig.len() ==> #[trigger] fault_of(orig, all, m) is None,
            forall|m: int| 0 <= m < k ==> describes(#[trigger] methods@[m], orig[m], all),
        decreases rest.len(),
    {
        let d = rest.remove(0);
        assert(d == orig[k as int]);
        let rpc_name = wire_name(&d);
        let exposed_name = to_camel(&rpc_name);
        let positional = d.positional || all;
        let result = if d.notification {
            None
        } else {
            match d.result {
                Some(t) => Some(t),
                None => Some(TypeRef::Unit),
            }
        };
        let params = if positional {
            ParamShape::Positional(d.params)
        } else {
            let mut ps = d.params;
            if ps.len() == 0 {
                ParamShape::Structured(None)
            } else {
                ParamShape::Structured(Some(ps.remove(0)))
            }
        };
        methods.push(
            MethodDescriptor {
                rpc_name,
                exposed_name,
                params,
                result,
                is_notification: d.notification,
                docs: d.docs,
            },
        );
        k += 1;
        assert(rest@ =~= orig.subrange(k as int, orig.len() as int));
    }
    let reg = Registry {
        methods,
        client_stub: root.ts_outdir.is_some(),
        schema: root.schema_outdir.is_some(),
    };
    proof {
        assert forall|a: int, b: int|
            0 <= a < reg.methods@.len() && 0 <= b < reg.methods@.len() && a != b implies #[trigger] reg.methods@[a].rpc_name@
            != #[trigger] reg.methods@[b].rpc_name@ by {
            assert(describes(reg.methods@[a], orig[a], all));
            assert(describes(reg.methods@[b], orig[b], all));
            if a < b {
                assert(fault_of(orig, all, b) is None);
                assert(rpc_name_of(orig[a]) != rpc_name_of(orig[b]));
            } else {
                assert(fault_of(orig, all, a) is None);
                assert(rpc_name_of(orig[b]) != rpc_name_of(orig[a]));
            }
        }
        assert forall|a: int| 0 <= a < reg.methods@.len() && #[trigger] reg.methods@[a].is_notification implies reg.methods@[a].result is None by {
            assert(describes(reg.methods@[a], orig[a], all));
        }
    }
    Ok(reg)
}

} // verus!
