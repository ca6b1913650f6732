use vstd::prelude::*;

verus! {

/// The verbs of a REST endpoint. Each hands back a request builder, aimed
/// at the endpoint, for the caller to finish configuring and send.
pub trait RESTMethods {
    /// What a verb hands back.
    type RequestBuilder;

    /// Starts a `GET` request.
    fn get(&self) -> Self::RequestBuilder;

    /// Starts a `POST` request.
    fn post(&self) -> Self::RequestBuilder;

    /// Starts a `PUT` request.
    fn put(&self) -> Self::RequestBuilder;

    /// Starts a `PATCH` request.
    fn patch(&self) -> Self::RequestBuilder;

    /// Starts a `DELETE` request.
    fn delete(&self) -> Self::RequestBuilder;

    /// Starts a `HEAD` request.
    fn head(&self) -> Self::RequestBuilder;
}

} // verus!
