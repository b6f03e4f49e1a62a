//! Errors of a reconcile pass.
use vstd::prelude::*;
use vstd::string::*;

verus! {

/// What made a reconcile pass fail.
#[derive(Debug)]
pub enum OperatorError {
    /// The Kubernetes API refused a request; the API client's description of it.
    Kube(String),
    /// A field that the operator needs is absent.
    MissingField(String),
    /// Something did not happen in time.
    Timeout(String),
    /// A storage size in the cluster spec is not a valid quantity.
    InvalidStorageSize(String),
    /// A persistent volume claim is in a state that cannot be reconciled.
    PvcStorageState(String),
}

pub enum OperatorErrorView {
    Kube(Seq<char>),
    MissingField(Seq<char>),
    Timeout(Seq<char>),
    InvalidStorageSize(Seq<char>),
    PvcStorageState(Seq<char>),
}

impl View for OperatorError {
    type V = OperatorErrorView;

    open spec fn view(&self) -> OperatorErrorView {
        match self {
            OperatorError::Kube(s) => OperatorErrorView::Kube(s@),
            OperatorError::MissingField(s) => OperatorErrorView::MissingField(s@),
            OperatorError::Timeout(s) => OperatorErrorView::Timeout(s@),
            OperatorError::InvalidStorageSize(s) => OperatorErrorView::InvalidStorageSize(s@),
            OperatorError::PvcStorageState(s) => OperatorErrorView::PvcStorageState(s@),
        }
    }
}

/// The description of an error.
pub open spec fn error_text(e: OperatorErrorView) -> Seq<char> {
    match e {
        OperatorErrorView::Kube(s) => "Kubernetes API error: "@ + s,
        OperatorErrorView::MissingField(s) => "Missing field: "@ + s,
        OperatorErrorView::Timeout(s) => "Timeout: "@ + s,
        OperatorErrorView::InvalidStorageSize(s) => "Invalid storage size: "@ + s,
        OperatorErrorView::PvcStorageState(s) => "Unexpected PVC storage state: "@ + s,
    }
}

fn lit(s: &str) -> (r: String)
    ensures
        r@ == s@,
{
    String::from_str(s)
}

impl OperatorError {
    /// The description of the error.
    pub fn text(&self) -> (s: String)
        ensures
            s@ == error_text(self@),
    {
        match self {
            OperatorError::Kube(s) => lit("Kubernetes API error: ").concat(s.as_str()),
            OperatorError::MissingField(s) => lit("Missing field: ").concat(s.as_str()),
            OperatorError::Timeout(s) => lit("Timeout: ").concat(s.as_str()),
            OperatorError::InvalidStorageSize(s) => lit("Invalid storage size: ").concat(s.as_str()),
            OperatorError::PvcStorageState(s) => lit("Unexpected PVC storage state: ").concat(s.as_str()),
        }
    }
}

} // verus!
