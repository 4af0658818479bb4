use vstd::prelude::*;

verus! {

/// What a call brought back: a decoded payload, or the provider's signal that
/// too many requests were made.
#[derive(Debug, Clone)]
pub enum ApiResponse<T> {
    Response(T),
    RateLimitReached,
}

impl<T> ApiResponse<T> {
    /// Returns `true` if the api response is a decoded payload.
    #[must_use]
    pub fn is_response(&self) -> (r: bool)
        ensures
            r == self is Response,
    {
        match self {
            ApiResponse::Response(_) => true,
            ApiResponse::RateLimitReached => false,
        }
    }

    /// Returns a reference to the payload, if there is one.
    pub fn as_response(&self) -> (r: Option<&T>)
        ensures
            self is Response ==> r == Some(&self->Response_0),
            self is RateLimitReached ==> r is None,
    {
        if let ApiResponse::Response(v) = self {
            Some(v)
        } else {
            None
        }
    }

    /// Returns the payload, or the response itself when it holds none.
    pub fn try_into_response(self) -> (r: Result<T, Self>)
        ensures
            self is Response ==> r == Ok::<T, Self>(self->Response_0),
            self is RateLimitReached ==> r == Err::<T, Self>(self),
    {
        match self {
            ApiResponse::Response(v) => Ok(v),
            ApiResponse::RateLimitReached => Err(ApiResponse::RateLimitReached),
        }
    }

    /// Returns `true` if the provider reported that its rate limit was reached.
    #[must_use]
    pub fn is_rate_limit_reached(&self) -> (r: bool)
        ensures
            r == self is RateLimitReached,
    {
        match self {
            ApiResponse::Response(_) => false,
            ApiResponse::RateLimitReached => true,
        }
    }
}

} // verus!
