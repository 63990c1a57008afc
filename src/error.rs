use vstd::prelude::*;

verus! {

/// Every failure of the control plane, by kind, each with a cause.
#[derive(Debug)]
pub enum YangtzeError {
    /// A failure of the storage backend that is none of the others.
    GeneralError(String),
    /// A non-success response, or a transport failure, on the way to the store.
    RestfulError(String),
    /// A malformed endpoint or connection configuration.
    InvalidConfig(String),
    /// No object has the requested id.
    NotFound(String),
    /// The optimistic-concurrency version check failed.
    Conflict(String),
    /// A payload does not decode into the expected resource.
    DecodeError(String),
}

impl YangtzeError {
    /// The HTTP status that the boundary API answers with for this error.
    pub open spec fn spec_status_code(&self) -> u16 {
        match self {
            YangtzeError::NotFound(_) => 404,
            YangtzeError::Conflict(_) => 409,
            YangtzeError::RestfulError(_) => 502,
            _ => 500,
        }
    }

    pub fn status_code(&self) -> (r: u16)
        ensures
            r == self.spec_status_code(),
    {
        match self {
            YangtzeError::NotFound(_) => 404,
            YangtzeError::Conflict(_) => 409,
            YangtzeError::RestfulError(_) => 502,
            _ => 500,
        }
    }

    /// The cause carried by the error.
    pub fn message(&self) -> (r: String)
        ensures
            r@ == self.spec_message(),
    {
        match self {
            YangtzeError::GeneralError(m) => m.clone(),
            YangtzeError::RestfulError(m) => m.clone(),
            YangtzeError::InvalidConfig(m) => m.clone(),
            YangtzeError::NotFound(m) => m.clone(),
            YangtzeError::Conflict(m) => m.clone(),
            YangtzeError::DecodeError(m) => m.clone(),
        }
    }

    pub open spec fn spec_message(&self) -> Seq<char> {
        match self {
            YangtzeError::GeneralError(m) => m@,
            YangtzeError::RestfulError(m) => m@,
            YangtzeError::InvalidConfig(m) => m@,
            YangtzeError::NotFound(m) => m@,
            YangtzeError::Conflict(m) => m@,
            YangtzeError::DecodeError(m) => m@,
        }
    }
}

} // verus!
