//! Checking a trackable type's accessor declarations before any tracker or
//! surface is made for it.
//!
//! A declaration list is the items of one `impl` block, each reduced to what
//! the check reads: whether it is a method, its visibility, how it takes
//! `self`, how many other arguments it has, and its return type.
use vstd::prelude::*;

verus! {

/// The visibility written on a method.
#[derive(PartialEq, Eq, Structural)]
pub enum Visibility {
    /// No visibility written.
    Inherited,
    /// `pub`.
    Public,
    /// Any restricted form such as `pub(crate)`.
    Restricted,
}

/// The first parameter of a method.
#[derive(PartialEq, Eq, Structural)]
pub enum Receiver {
    /// The method takes no `self`.
    Missing,
    /// `self` or `mut self`.
    ByValue,
    /// `&self`.
    Shared,
    /// `&mut self`.
    Exclusive,
}

/// What the check reads of a method declaration.
pub struct MethodDecl {
    pub name: String,
    pub vis: Visibility,
    pub receiver: Receiver,
    /// Parameters after the receiver.
    pub extra_inputs: usize,
    /// The written return type, or `None` when the method returns `()` implicitly.
    pub output: Option<String>,
}

/// An item of the `impl` block.
pub enum ImplItem {
    Method(MethodDecl),
    /// A constant, type, macro or any other item that is not a method.
    Other,
}

/// Why a declaration cannot be tracked.
#[derive(PartialEq, Eq, Structural, Clone, Copy, Debug)]
pub enum DeclError {
    NotAMethod,
    UnsupportedVisibility,
    MissingSelf,
    SelfNotShared,
    ExtraArguments,
    MissingReturnType,
}

/// The first rule that an item breaks, checked in this order: it must be a
/// method, private or `pub`, taking `&self` and nothing else, with a return
/// type.
pub open spec fn decl_error(item: ImplItem) -> Option<DeclError> {
    match item {
        ImplItem::Other => Some(DeclError::NotAMethod),
        ImplItem::Method(m) => if m.vis is Restricted {
            Some(DeclError::UnsupportedVisibility)
        } else if m.receiver is Missing {
            Some(DeclError::MissingSelf)
        } else if !(m.receiver is Shared) {
            Some(DeclError::SelfNotShared)
        } else if m.extra_inputs > 0 {
            Some(DeclError::ExtraArguments)
        } else if m.output is None {
            Some(DeclError::MissingReturnType)
        } else {
            None
        },
    }
}

impl DeclError {
    /// The message shown for this error.
    pub fn message(&self) -> (r: &'static str)
        ensures
            r@ == match *self {
                DeclError::NotAMethod => "only methods are supported"@,
                DeclError::UnsupportedVisibility => "only private and public methods are supported"@,
                DeclError::MissingSelf => "method must take self"@,
                DeclError::SelfNotShared => "must take self by shared reference"@,
                DeclError::ExtraArguments => "currently, only methods without extra arguments are supported"@,
                DeclError::MissingReturnType => "method must have a return type"@,
            },
    {
        match self {
            DeclError::NotAMethod => "only methods are supported",
            DeclError::UnsupportedVisibility => "only private and public methods are supported",
            DeclError::MissingSelf => "method must take self",
            DeclError::SelfNotShared => "must take self by shared reference",
            DeclError::ExtraArguments => "currently, only methods without extra arguments are supported",
            DeclError::MissingReturnType => "method must have a return type",
        }
    }
}

/// Checks one item and hands back the method it declares.
pub fn method(item: &ImplItem) -> (r: Result<&MethodDecl, DeclError>)
    ensures
        match r {
            Ok(m) => decl_error(*item) is None && *item == ImplItem::Method(*m),
            Err(e) => decl_error(*item) == Some(e),
        },
{
    let m = match item {
        ImplItem::Method(m) => m,
        ImplItem::Other => {
            return Err(DeclError::NotAMethod);
        },
    };
    match m.vis {
        Visibility::Inherited => {},
        Visibility::Public => {},
        Visibility::Restricted => {
            return Err(DeclError::UnsupportedVisibility);
        },
    }
    match m.receiver {
        Receiver::Missing => {
            return Err(DeclError::MissingSelf);
        },
        Receiver::Shared => {},
        _ => {
            return Err(DeclError::SelfNotShared);
        },
    }
    if m.extra_inputs > 0 {
        return Err(DeclError::ExtraArguments);
    }
    if m.output.is_none() {
        return Err(DeclError::MissingReturnType);
    }
    Ok(m)
}

/// One accessor of the generated tracker and surface.
pub struct Accessor {
    /// The accessor's name, which also names its recorder in the tracker.
    pub name: String,
    /// The accessor's return type, which is the type its recorder holds.
    pub output: String,
    /// Whether the surface method is `pub`; otherwise it is visible to the
    /// module that declared the type.
    pub public: bool,
}

/// The accessor that a valid method declaration yields.
pub open spec fn accessor_of(m: MethodDecl) -> Accessor {
    Accessor { name: m.name, output: m.output.unwrap(), public: m.vis is Public }
}

/// Checks every item of an `impl` block, in order, and lists the accessors
/// to generate, one per method in declaration order. Fails with the error
/// of the first item that breaks a rule.
pub fn expand(items: &Vec<ImplItem>) -> (r: Result<Vec<Accessor>, DeclError>)
    ensures
        match r {
            Ok(accessors) => {
                &&& forall|i: int| 0 <= i < items@.len() ==> decl_error(#[trigger] items@[i]) is None
                &&& accessors@.len() == items@.len()
                &&& forall|i: int|
                    0 <= i < items@.len() ==> (#[trigger] items@[i]) == ImplItem::Method(
                        items@[i]->Method_0,
                    ) && accessors@[i] == accessor_of(items@[i]->Method_0)
            },
            Err(e) => exists|i: int|
                0 <= i < items@.len() && decl_error(#[trigger] items@[i]) == Some(e) && forall|j: int|
                    0 <= j < i ==> decl_error(#[trigger] items@[j]) is None,
        },
{
    let mut accessors: Vec<Accessor> = Vec::new();
    let mut k: usize = 0;
    while k < items.len()
        invariant
            k <= items@.len(),
            accessors@.len() == k,
            forall|i: int| 0 <= i < k ==> decl_error(#[trigger] items@[i]) is None,
            forall|i: int|
                0 <= i < k ==> (#[trigger] items@[i]) == ImplItem::Method(items@[i]->Method_0)
                    && accessors@[i] == accessor_of(items@[i]->Method_0),
        decreases items@.len() - k,
    {
        match method(&items[k]) {
            Ok(m) => {
                let output = match &m.output {
                    Some(t) => t.clone(),
                    None => {
                        proof {
                            assert(false);
                        }
                        String::new()
                    },
                };
                let public = match m.vis {
                    Visibility::Public => true,
                    _ => false,
                };
                accessors.push(Accessor { name: m.name.clone(), output, public });
            },
            Err(e) => {
                return Err(e);
            },
        }
        k = k + 1;
    }
    Ok(accessors)
}

} // verus!
