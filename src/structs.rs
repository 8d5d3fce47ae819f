use vstd::prelude::*;

verus! {

/// A request body that names one account.
pub struct EntityStringId {
    pub id: String,
}

/// A login request: an id and a plaintext password, never stored.
pub struct Credentials {
    pub id: String,
    pub password: String,
}

/// A page request.
pub struct Page {
    pub skip: i64,
    pub limit: i64,
}

/// A page of results with a message.
pub struct PageData<T> {
    pub data: Vec<T>,
    pub msg: String,
}

/// An issued token with a message.
pub struct TokenData {
    pub data: String,
    pub msg: String,
}

/// Any payload with a message.
pub struct Wrapper<T> {
    pub data: T,
    pub msg: String,
}

} // verus!
