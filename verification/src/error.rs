//! The error of the SQLx stores and how the session layer gets to see it.

use tower_sessions_core::session_store;
use vstd::prelude::*;
use vstd::std_specs::convert::FromSpecImpl;
use vstd::string::to_string_from_display_ensures;

verus! {

/// `sqlx::Error`, carried through as it came from the driver.
#[verifier::external_type_specification]
#[verifier::external_body]
pub struct ExSqlxError(sqlx::Error);

/// `rmp_serde::encode::Error`, carried through as the encoder raised it.
#[verifier::external_type_specification]
#[verifier::external_body]
pub struct ExEncodeError(rmp_serde::encode::Error);

/// `rmp_serde::decode::Error`, carried through as the decoder raised it.
#[verifier::external_type_specification]
#[verifier::external_body]
pub struct ExDecodeError(rmp_serde::decode::Error);

/// `tower_sessions_core::session_store::Error`, the error that every session
/// store hands to the session layer.
#[verifier::external_type_specification]
#[verifier::external_body]
pub struct ExSessionStoreError(session_store::Error);

/// The value `session_store::Error::Backend` makes of a text.
pub uninterp spec fn backend_error(text: Seq<char>) -> session_store::Error;

/// The value `session_store::Error::Encode` makes of a text.
pub uninterp spec fn encode_error(text: Seq<char>) -> session_store::Error;

/// The value `session_store::Error::Decode` makes of a text.
pub uninterp spec fn decode_error(text: Seq<char>) -> session_store::Error;

/// Calls the variant constructor `session_store::Error::Backend`, which
/// stores the text as it is given.
#[verifier::external_body]
fn new_backend_error(text: String) -> (e: session_store::Error)
    ensures
        e == backend_error(text@),
{
    session_store::Error::Backend(text)
}

/// Calls the variant constructor `session_store::Error::Encode`, which
/// stores the text as it is given.
#[verifier::external_body]
fn new_encode_error(text: String) -> (e: session_store::Error)
    ensures
        e == encode_error(text@),
{
    session_store::Error::Encode(text)
}

/// Calls the variant constructor `session_store::Error::Decode`, which
/// stores the text as it is given.
#[verifier::external_body]
fn new_decode_error(text: String) -> (e: session_store::Error)
    ensures
        e == decode_error(text@),
{
    session_store::Error::Decode(text)
}

/// What the session layer is told about where a failure arose.
#[derive(Clone, Copy, Debug, PartialEq, Eq, Structural)]
pub enum Category {
    /// The database or its driver failed.
    Backend,
    /// A session record could not be turned into bytes.
    Encode,
    /// Stored bytes could not be turned back into a session record.
    Decode,
}

/// The session-layer error of a category that carries a text.
pub open spec fn session_error(category: Category, text: Seq<char>) -> session_store::Error {
    match category {
        Category::Backend => backend_error(text),
        Category::Encode => encode_error(text),
        Category::Decode => decode_error(text),
    }
}

/// Builds the session-layer error of `category` around `text`, which is
/// stored unchanged.
pub fn new_session_error(category: Category, text: String) -> (e: session_store::Error)
    ensures
        e == session_error(category, text@),
{
    match category {
        Category::Backend => new_backend_error(text),
        Category::Encode => new_encode_error(text),
        Category::Decode => new_decode_error(text),
    }
}

/// An error type for SQLx stores.
#[derive(Debug)]
pub enum SqlxStoreError {
    /// A variant to map `sqlx` errors.
    Sqlx(sqlx::Error),
    /// A variant to map `rmp_serde` encode errors.
    Encode(rmp_serde::encode::Error),
    /// A variant to map `rmp_serde` decode errors.
    Decode(rmp_serde::decode::Error),
}

impl SqlxStoreError {
    /// The category under which the session layer files this error.
    pub open spec fn spec_category(&self) -> Category {
        match self {
            SqlxStoreError::Sqlx(_) => Category::Backend,
            SqlxStoreError::Encode(_) => Category::Encode,
            SqlxStoreError::Decode(_) => Category::Decode,
        }
    }

    /// Whether `text` is a rendering of the wrapped error by its own
    /// `Display`, with nothing added and nothing taken away.
    pub open spec fn renders_as(&self, text: String) -> bool {
        match self {
            SqlxStoreError::Sqlx(inner) => to_string_from_display_ensures::<sqlx::Error>(
                inner,
                text,
            ),
            SqlxStoreError::Encode(inner) => to_string_from_display_ensures::<
                rmp_serde::encode::Error,
            >(inner, text),
            SqlxStoreError::Decode(inner) => to_string_from_display_ensures::<
                rmp_serde::decode::Error,
            >(inner, text),
        }
    }

    /// The category under which the session layer files this error.
    #[verifier::when_used_as_spec(spec_category)]
    pub fn category(&self) -> (category: Category)
        ensures
            category == self.spec_category(),
    {
        match self {
            SqlxStoreError::Sqlx(_) => Category::Backend,
            SqlxStoreError::Encode(_) => Category::Encode,
            SqlxStoreError::Decode(_) => Category::Decode,
        }
    }

    /// The message of the wrapped error, exactly as that error renders
    /// itself.
    pub fn message(&self) -> (text: String)
        ensures
            self.renders_as(text),
    {
        match self {
            SqlxStoreError::Sqlx(inner) => inner.to_string(),
            SqlxStoreError::Encode(inner) => inner.to_string(),
            SqlxStoreError::Decode(inner) => inner.to_string(),
        }
    }
}

impl From<sqlx::Error> for SqlxStoreError {
    fn from(source: sqlx::Error) -> (e: SqlxStoreError) {
        SqlxStoreError::Sqlx(source)
    }
}

impl FromSpecImpl<sqlx::Error> for SqlxStoreError {
    open spec fn obeys_from_spec() -> bool {
        true
    }

    open spec fn from_spec(source: sqlx::Error) -> SqlxStoreError {
        SqlxStoreError::Sqlx(source)
    }
}

impl From<rmp_serde::encode::Error> for SqlxStoreError {
    fn from(source: rmp_serde::encode::Error) -> (e: SqlxStoreError) {
        SqlxStoreError::Encode(source)
    }
}

impl FromSpecImpl<rmp_serde::encode::Error> for SqlxStoreError {
    open spec fn obeys_from_spec() -> bool {
        true
    }

    open spec fn from_spec(source: rmp_serde::encode::Error) -> SqlxStoreError {
        SqlxStoreError::Encode(source)
    }
}

impl From<rmp_serde::decode::Error> for SqlxStoreError {
    fn from(source: rmp_serde::decode::Error) -> (e: SqlxStoreError) {
        SqlxStoreError::Decode(source)
    }
}

impl FromSpecImpl<rmp_serde::decode::Error> for SqlxStoreError {
    open spec fn obeys_from_spec() -> bool {
        true
    }

    open spec fn from_spec(source: rmp_serde::decode::Error) -> SqlxStoreError {
        SqlxStoreError::Decode(source)
    }
}

impl From<SqlxStoreError> for session_store::Error {
    /// Files the error under its category and hands on the wrapped error's
    /// own message as the text.
    fn from(err: SqlxStoreError) -> (e: session_store::Error)
        ensures
            exists|text: String| #[trigger]
                err.renders_as(text) && e == session_error(err.spec_category(), text@),
    {
        let category = err.category();
        let text = err.message();
        new_session_error(category, text)
    }
}

/// The conversion is no function of the error alone: the text is what the
/// wrapped error's `Display` writes when it is asked. What comes out is
/// stated on `from` itself.
impl FromSpecImpl<SqlxStoreError> for session_store::Error {
    open spec fn obeys_from_spec() -> bool {
        false
    }

    open spec fn from_spec(err: SqlxStoreError) -> session_store::Error {
        arbitrary()
    }
}

} // verus!
