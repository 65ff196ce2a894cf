//! The type-registration entry points: split a comma-delimited token list
//! into one token group per type expression, detect the generic parameter
//! list attached to a type, and emit one immediate-wrap capability
//! implementation per registered type, generic over the detected parameters.

use vstd::prelude::*;

use crate::ast::{
    names_view, token_groups_view, tokens_view, CratePrefix, ImplBlock, ImplS, PathSegment, Token,
    TokenS, TypeExpr, TypeS,
};

verus! {

/// Whether a token is the list delimiter, a comma.
pub open spec fn is_comma(t: TokenS) -> bool {
    match t {
        TokenS::Punct(c) => c == ',',
        TokenS::Text(_) => false,
    }
}

/// The groups of a comma-delimited token list: one group per delimited
/// stretch, commas create a new (possibly empty) group before them, and a
/// trailing stretch is kept only when it is non-empty.
pub open spec fn split_types_spec(s: Seq<TokenS>) -> Seq<Seq<TokenS>>
    decreases s.len(),
{
    if s.len() == 0 {
        Seq::empty()
    } else if is_comma(s[0]) {
        seq![Seq::<TokenS>::empty()] + split_types_spec(s.skip(1))
    } else {
        let rest = split_types_spec(s.skip(1));
        if rest.len() == 0 {
            seq![seq![s[0]]]
        } else {
            seq![seq![s[0]] + rest[0]] + rest.skip(1)
        }
    }
}

/// Whether a token is the list delimiter, executably.
pub fn is_delimiter(token: &Token) -> (r: bool)
    ensures
        r == is_comma(token@),
{
    match token {
        Token::Punct(c) => *c == ',',
        Token::Text(_) => false,
    }
}

/// Split a type-registration token list on its comma delimiters.
pub fn split_types(input: Vec<Token>) -> (r: Vec<Vec<Token>>)
    ensures
        token_groups_view(r@) == split_types_spec(tokens_view(input@)),
    decreases input@.len(),
{
    let mut input = input;
    let ghost whole: Seq<Token> = input@;
    if input.len() == 0 {
        let r: Vec<Vec<Token>> = Vec::new();
        proof {
            assert(token_groups_view(r@) =~= split_types_spec(tokens_view(whole)));
        }
        return r;
    }
    let first = input.remove(0);
    proof {
        assert(input@ =~= whole.skip(1));
        assert(tokens_view(input@) =~= tokens_view(whole).skip(1));
        assert(tokens_view(whole)[0] == first@);
        assert(tokens_view(whole).len() == whole.len());
    }
    let delim = is_delimiter(&first);
    let mut rest = split_types(input);
    let ghost rest0: Seq<Vec<Token>> = rest@;
    if delim {
        let empty_group: Vec<Token> = Vec::new();
        rest.insert(0, empty_group);
        proof {
            assert(token_groups_view(rest@) =~~= split_types_spec(tokens_view(whole)));
        }
        rest
    } else {
        if rest.len() == 0 {
            let mut group: Vec<Token> = Vec::new();
            group.push(first);
            let mut r: Vec<Vec<Token>> = Vec::new();
            r.push(group);
            proof {
                assert(tokens_view(group@) =~= seq![first@]);
                assert(token_groups_view(r@) =~~= split_types_spec(tokens_view(whole)));
            }
            r
        } else {
            let mut group = rest.remove(0);
            let ghost head0: Seq<Token> = group@;
            group.insert(0, first);
            rest.insert(0, group);
            proof {
                assert(head0 == rest0[0]@);
                assert(tokens_view(group@) =~= seq![first@] + tokens_view(head0));
                assert(token_groups_view(rest@) =~~= split_types_spec(tokens_view(whole)));
            }
            rest
        }
    }
}

/// The generic parameter list that an emitted implementation reuses: the
/// angle-bracketed arguments attached to the type's last path segment, if the
/// type is a path type and its last segment carries any.
pub open spec fn generic_args_spec(t: TypeS) -> Option<Seq<Seq<char>>> {
    match t {
        TypeS::Path { segments } => if segments.len() > 0 {
            segments.last().args
        } else {
            None
        },
        TypeS::Other { text } => None,
    }
}

/// Detect the generic parameter list of a type expression, executably.
pub fn get_generic_args(impl_type: &TypeExpr) -> (r: Option<Vec<String>>)
    ensures
        (match r {
            Some(a) => generic_args_spec(impl_type@) == Some(names_view(a@)),
            None => generic_args_spec(impl_type@) is None,
        }),
{
    match impl_type {
        TypeExpr::Path { segments } => {
            if segments.len() == 0 {
                return None;
            }
            let last: &PathSegment = &segments[segments.len() - 1];
            proof {
                assert(impl_type@->Path_segments.last() == last@);
            }
            match &last.args {
                Some(a) => Some(clone_names(a)),
                None => None,
            }
        },
        TypeExpr::Other { .. } => None,
    }
}

/// Copy a list of names.
pub fn clone_names(v: &Vec<String>) -> (r: Vec<String>)
    ensures
        names_view(r@) == names_view(v@),
{
    let mut r: Vec<String> = Vec::new();
    let mut i: usize = 0;
    while i < v.len()
        invariant
            i <= v@.len(),
            r@.len() == i,
            forall|j: int| 0 <= j < i ==> r@[j]@ == v@[j]@,
        decreases v@.len() - i,
    {
        r.push(v[i].clone());
        i = i + 1;
    }
    proof {
        assert(names_view(r@) =~= names_view(v@));
    }
    r
}

/// The implementation emitted for one registered type: the immediate-wrap
/// capability for that type, generic over the parameters detected on it, and
/// qualifying the shim's path as the given prefix directs.
pub open spec fn impl_for_spec(t: TypeS, prefix: CratePrefix) -> ImplS {
    ImplS { generics: generic_args_spec(t), self_type: t, prefix }
}

/// Emit the implementation for one registered type, executably.
pub fn make_impl(impl_type: TypeExpr, prefix: CratePrefix) -> (r: ImplBlock)
    ensures
        r@ == impl_for_spec(impl_type@, prefix),
{
    let generics = get_generic_args(&impl_type);
    ImplBlock { generics, self_type: impl_type, prefix }
}

/// Emit one immediate-wrap implementation per parsed type expression, with
/// the shim's path qualified through the crate's external name. This is the
/// registration surface meant for third-party users of the shim.
pub fn as_future(types: Vec<TypeExpr>) -> (r: Vec<ImplBlock>)
    ensures
        r@.len() == types@.len(),
        forall|i: int| 0 <= i < types@.len() ==> r@[i]@ == impl_for_spec(
            types@[i]@,
            CratePrefix::External,
        ),
{
    expand_type_list(types, CratePrefix::External)
}

/// The same registration surface for use inside the shim crate itself, where
/// the shim's path is qualified through the crate-internal prefix instead.
pub fn as_future_internal(types: Vec<TypeExpr>) -> (r: Vec<ImplBlock>)
    ensures
        r@.len() == types@.len(),
        forall|i: int| 0 <= i < types@.len() ==> r@[i]@ == impl_for_spec(
            types@[i]@,
            CratePrefix::Internal,
        ),
{
    expand_type_list(types, CratePrefix::Internal)
}

/// Emit one implementation per type, with the given path qualification.
pub fn expand_type_list(types: Vec<TypeExpr>, prefix: CratePrefix) -> (r: Vec<ImplBlock>)
    ensures
        r@.len() == types@.len(),
        forall|i: int| 0 <= i < types@.len() ==> r@[i]@ == impl_for_spec(types@[i]@, prefix),
{
    let mut out: Vec<ImplBlock> = Vec::new();
    let mut input = types;
    let ghost orig: Seq<TypeExpr> = input@;
    while input.len() > 0
        invariant
            out@.len() + input@.len() == orig.len(),
            input@ =~= orig.skip(out@.len() as int),
            forall|i: int| 0 <= i < out@.len() ==> out@[i]@ == impl_for_spec(orig[i]@, prefix),
        decreases input@.len(),
    {
        let ghost done = out@.len() as int;
        let t = input.remove(0);
        proof {
            assert(orig.skip(done)[0] == orig[done]);
            assert(input@ =~= orig.skip(done + 1));
        }
        out.push(make_impl(t, prefix));
    }
    out
}

/// Registering a type whose last path segment carries a generic parameter
/// list yields an implementation generic over exactly those parameters, so
/// the capability exists for every instantiation of the type, not for one
/// concrete instantiation.
pub proof fn lemma_generic_registration(t: TypeS, prefix: CratePrefix, params: Seq<Seq<char>>)
    requires
        t is Path,
        t->Path_segments.len() > 0,
        t->Path_segments.last().args == Some(params),
    ensures
        impl_for_spec(t, prefix).generics == Some(params),
        impl_for_spec(t, prefix).self_type == t,
{
}

} // verus!
