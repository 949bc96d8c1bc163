//! The parameter list, collapsed into the single binding of the runner's callback.
use crate::diagnostic::{ErrorModel, ExpansionError};
use vstd::prelude::*;

verus! {

/// One parameter of the annotated function.
#[derive(Debug, Clone, PartialEq, Eq)]
pub enum Param {
    /// `self`, `&self`, `&mut self` and the like.
    Receiver,
    /// `pattern: type`, with the text of each attribute written on it.
    Typed { attrs: Vec<String>, pat: String, ty: String },
}

/// The parameter of the runner's callback.
#[derive(Debug, Clone, PartialEq, Eq)]
pub enum Binding {
    /// The callback takes no argument.
    Empty,
    /// `pat: ty`, as the one parameter was written.
    Single { pat: String, ty: String },
    /// `(p1, ..., pn): (t1, ..., tn)`, in declaration order.
    Tuple { pats: Vec<String>, tys: Vec<String> },
}

pub enum BindingModel {
    Empty,
    Single { pat: Seq<char>, ty: Seq<char> },
    Tuple { pats: Seq<Seq<char>>, tys: Seq<Seq<char>> },
}

pub open spec fn texts(v: Seq<String>) -> Seq<Seq<char>> {
    v.map_values(|s: String| s@)
}

impl View for Binding {
    type V = BindingModel;

    open spec fn view(&self) -> BindingModel {
        match self {
            Binding::Empty => BindingModel::Empty,
            Binding::Single { pat, ty } => BindingModel::Single { pat: pat@, ty: ty@ },
            Binding::Tuple { pats, tys } => BindingModel::Tuple {
                pats: texts(pats@),
                tys: texts(tys@),
            },
        }
    }
}

/// A parameter that can take part in the callback binding.
pub open spec fn param_accepted(p: Param) -> bool {
    match p {
        Param::Receiver => false,
        Param::Typed { attrs, .. } => attrs@.len() == 0,
    }
}

/// The error for a refused parameter at index `i`.
pub open spec fn param_error(p: Param, i: int) -> ErrorModel {
    match p {
        Param::Receiver => ErrorModel::ReceiverNotAllowed { param: i },
        Param::Typed { .. } => ErrorModel::ParameterAttributesNotAllowed { param: i },
    }
}

pub open spec fn pat_of(p: Param) -> Seq<char> {
    match p {
        Param::Typed { pat, .. } => pat@,
        Param::Receiver => Seq::empty(),
    }
}

pub open spec fn ty_of(p: Param) -> Seq<char> {
    match p {
        Param::Typed { ty, .. } => ty@,
        Param::Receiver => Seq::empty(),
    }
}

/// The binding for a list of accepted parameters: by arity, nothing, the one
/// parameter unchanged, or the tuple of all of them in order.
pub open spec fn binding_model(ps: Seq<Param>) -> BindingModel {
    if ps.len() == 0 {
        BindingModel::Empty
    } else if ps.len() == 1 {
        BindingModel::Single { pat: pat_of(ps[0]), ty: ty_of(ps[0]) }
    } else {
        BindingModel::Tuple {
            pats: ps.map_values(|p: Param| pat_of(p)),
            tys: ps.map_values(|p: Param| ty_of(p)),
        }
    }
}

/// Index of the first refused parameter at or after `i`, if any.
pub open spec fn first_refused(ps: Seq<Param>, i: int) -> Option<int>
    decreases ps.len() - i,
{
    if i < 0 || i >= ps.len() {
        None
    } else if !param_accepted(ps[i]) {
        Some(i)
    } else {
        first_refused(ps, i + 1)
    }
}

/// The callback binding for the parameter list, or the error for its first
/// refused parameter.
pub open spec fn binding_of(ps: Seq<Param>) -> Result<BindingModel, ErrorModel> {
    match first_refused(ps, 0) {
        Some(i) => Err(param_error(ps[i], i)),
        None => Ok(binding_model(ps)),
    }
}

/// No parameter at or after `i` is refused when all of them are accepted.
pub proof fn lemma_first_refused_none(ps: Seq<Param>, i: int)
    requires
        0 <= i <= ps.len(),
        forall|j: int| i <= j < ps.len() ==> param_accepted(#[trigger] ps[j]),
    ensures
        first_refused(ps, i) is None,
    decreases ps.len() - i,
{
    if i < ps.len() {
        lemma_first_refused_none(ps, i + 1);
    }
}

proof fn lemma_first_refused_some(ps: Seq<Param>, i: int, k: int)
    requires
        0 <= i <= k < ps.len(),
        forall|j: int| i <= j < k ==> param_accepted(#[trigger] ps[j]),
        !param_accepted(ps[k]),
    ensures
        first_refused(ps, i) == Some(k),
    decreases k - i,
{
    if i < k {
        lemma_first_refused_some(ps, i + 1, k);
    }
}

/// Checks every parameter in order, then collapses the list into one binding.
pub fn rewrite_params(params: &Vec<Param>) -> (r: Result<Binding, ExpansionError>)
    ensures
        match r {
            Ok(b) => binding_of(params@) == Ok::<BindingModel, ErrorModel>(b@),
            Err(e) => binding_of(params@) == Err::<BindingModel, ErrorModel>(e@),
        },
{
    let mut pats: Vec<String> = Vec::new();
    let mut tys: Vec<String> = Vec::new();
    let mut i: usize = 0;
    while i < params.len()
        invariant
            i <= params.len(),
            forall|j: int| 0 <= j < i ==> param_accepted(#[trigger] params@[j]),
            pats@.len() == i,
            tys@.len() == i,
            forall|j: int| 0 <= j < i ==> #[trigger] pats@[j]@ == pat_of(params@[j]),
            forall|j: int| 0 <= j < i ==> #[trigger] tys@[j]@ == ty_of(params@[j]),
        decreases params.len() - i,
    {
        match &params[i] {
            Param::Receiver => {
                proof {
                    lemma_first_refused_some(params@, 0, i as int);
                }
                return Err(ExpansionError::ReceiverNotAllowed { param: i });
            },
            Param::Typed { attrs, pat, ty } => {
                if attrs.len() > 0 {
                    proof {
                        lemma_first_refused_some(params@, 0, i as int);
                    }
                    return Err(ExpansionError::ParameterAttributesNotAllowed { param: i });
                }
                pats.push(pat.clone());
                tys.push(ty.clone());
            },
        }
        i = i + 1;
    }
    proof {
        lemma_first_refused_none(params@, 0);
    }
    if pats.len() == 0 {
        Ok(Binding::Empty)
    } else if pats.len() == 1 {
        let pat = pats.pop().unwrap();
        let ty = tys.pop().unwrap();
        Ok(Binding::Single { pat, ty })
    } else {
        let ghost ps = params@;
        assert(texts(pats@) =~= ps.map_values(|p: Param| pat_of(p)));
        assert(texts(tys@) =~= ps.map_values(|p: Param| ty_of(p)));
        Ok(Binding::Tuple { pats, tys })
    }
}

} // verus!
