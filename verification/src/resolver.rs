//! Accounts-context resolution.
//!
//! A handler names the account set it expects through a generic argument of
//! its context parameter, as in `ctx: Context<Initialize>`. The resolver
//! recovers that name from the parameter's declared type: it takes the first
//! type-valued argument inside the first path segment's angle-bracketed
//! argument list, and returns that argument's leading path identifier.

use crate::ast::{clone_ident, GenericArg, GenericArgList, HandlerParameter, Ident, PathArguments, Type, TypePath};
use crate::error::StructuralError;
use vstd::prelude::*;

verus! {

/// The first type-valued argument of a generic argument list, in written
/// order; lifetime and const arguments are passed over.
pub open spec fn first_type_arg(args: Seq<GenericArg>) -> Option<Type>
    decreases args.len(),
{
    if args.len() == 0 {
        None
    } else {
        match args[0] {
            GenericArg::Type(t) => Some(t),
            _ => first_type_arg(args.drop_first()),
        }
    }
}

/// What resolution returns for one parameter: the accounts-context
/// identifier, or the structural error naming the first shape requirement the
/// declared type misses.
pub open spec fn resolve_spec(param: HandlerParameter) -> Result<Ident, StructuralError> {
    match param.ty {
        Type::Other(span) => Err(StructuralError::InvalidParameterType(span)),
        Type::Path(p) => match p.head.arguments {
            PathArguments::AngleBracketed(list) => match first_type_arg(list.args@) {
                None => Err(StructuralError::MissingAccountsContext(list.span)),
                Some(Type::Path(inner)) => Ok(inner.head.ident),
                Some(Type::Other(span)) => Err(StructuralError::InvalidAccountsContextType(span)),
            },
            _ => Err(StructuralError::MissingGenericArguments(param.span)),
        },
    }
}

/// Finds the first type-valued argument of the list, if any.
fn find_first_type_arg(args: &Vec<GenericArg>) -> (r: Option<&Type>)
    ensures
        match r {
            Some(t) => first_type_arg(args@) == Some(*t),
            None => first_type_arg(args@) == None::<Type>,
        },
{
    let n = args.len();
    let mut i: usize = 0;
    proof {
        assert(args@.skip(0) =~= args@);
    }
    while i < n
        invariant
            i <= n,
            n == args@.len(),
            first_type_arg(args@) == first_type_arg(args@.skip(i as int)),
        decreases n - i,
    {
        let arg = &args[i];
        proof {
            assert(args@.skip(i as int)[0] == args@[i as int]);
            assert(args@.skip(i as int).drop_first() =~= args@.skip(i as int + 1));
        }
        if let GenericArg::Type(t) = arg {
            return Some(t);
        }
        i = i + 1;
    }
    proof {
        assert(args@.skip(n as int) =~= Seq::<GenericArg>::empty());
    }
    None
}

/// Resolves the accounts-context type named by one handler parameter.
///
/// Succeeds exactly when the declared type is a path type whose first segment
/// carries an angle-bracketed argument list holding a type-valued argument
/// that is itself a path type; the result is then that argument's leading
/// identifier. Each failing shape requirement yields its own error variant,
/// carrying the offending node's span. Deterministic; nothing is mutated.
pub fn resolve_accounts_context(param: &HandlerParameter) -> (r: Result<Ident, StructuralError>)
    ensures
        r == resolve_spec(*param),
{
    let p = match &param.ty {
        Type::Path(p) => p,
        Type::Other(span) => {
            return Err(StructuralError::InvalidParameterType(*span));
        },
    };
    let list = match &p.head.arguments {
        PathArguments::AngleBracketed(list) => list,
        _ => {
            return Err(StructuralError::MissingGenericArguments(param.span));
        },
    };
    match find_first_type_arg(&list.args) {
        None => Err(StructuralError::MissingAccountsContext(list.span)),
        Some(Type::Path(inner)) => Ok(clone_ident(&inner.head.ident)),
        Some(Type::Other(span)) => Err(StructuralError::InvalidAccountsContextType(*span)),
    }
}

/// For any parameter whose declared type is shaped `Wrapper<T, ...>` with `T`
/// a path type, resolution returns `T`'s leading identifier — for every
/// wrapper name and every path shape of `T`.
pub proof fn lemma_resolve_wrapped_path(param: HandlerParameter, list: GenericArgList, inner: TypePath)
    requires
        param.ty matches Type::Path(p) && p.head.arguments == PathArguments::AngleBracketed(list),
        list.args@.len() > 0,
        list.args@[0] == GenericArg::Type(Type::Path(inner)),
    ensures
        resolve_spec(param) == Ok::<Ident, StructuralError>(inner.head.ident),
{
}

/// Resolution succeeds exactly on the qualifying generic-argument shape: a
/// path type whose first segment's angle-bracketed argument list holds a
/// type-valued argument that is itself a path type. Every other shape yields
/// an error — never a silent skip.
pub proof fn lemma_resolve_ok_iff(param: HandlerParameter)
    ensures
        resolve_spec(param) matches Ok(_) <==> (param.ty matches Type::Path(p)
            && p.head.arguments matches PathArguments::AngleBracketed(list)
            && first_type_arg(list.args@) matches Some(t)
            && t matches Type::Path(_)),
{
}

} // verus!
