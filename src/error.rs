use vstd::prelude::*;

verus! {

#[verifier::external_type_specification]
#[verifier::external_body]
pub struct ExStoreError(mongodb::error::Error);

/// The two ways a read of the configuration value fails.
pub enum MConfigError {
    /// The store could not be reached or the query failed.
    MongodbError(mongodb::error::Error),
    /// The store holds no record under the key.
    KeyNotExists { key: String },
}

/// Relies on std's `format!`: the text is the three parts, side by side.
#[verifier::external_body]
fn key_not_found_text(key: &String) -> (r: String)
    ensures
        r@ == "key "@ + key@ + " not found"@,
{
    format!("key {} not found", key)
}

/// Relies on std's `format!` and on the `Display` impl of
/// mongodb::error::Error for the text of the store's error.
#[verifier::external_body]
fn store_error_text(e: &mongodb::error::Error) -> (r: String) {
    format!("mongodb error {}", e)
}

impl MConfigError {
    /// A line of text that says what went wrong.
    pub fn describe(&self) -> (r: String)
        ensures
            self matches MConfigError::KeyNotExists { key } ==> r@ == "key "@ + key@
                + " not found"@,
    {
        match self {
            MConfigError::MongodbError(e) => store_error_text(e),
            MConfigError::KeyNotExists { key } => key_not_found_text(key),
        }
    }

    pub open spec fn is_key_not_found(&self) -> bool {
        self is KeyNotExists
    }

    pub open spec fn is_store_error(&self) -> bool {
        self is MongodbError
    }

    /// Whether the store has no record under the key.
    pub fn key_not_found(&self) -> (r: bool)
        ensures
            r == self.is_key_not_found(),
    {
        match self {
            MConfigError::KeyNotExists { .. } => true,
            MConfigError::MongodbError(_) => false,
        }
    }

    /// The key that was looked up in vain, if this is that error.
    pub fn missing_key(&self) -> (r: Option<&String>)
        ensures
            r is Some <==> self.is_key_not_found(),
            r is Some ==> *r->Some_0 == self->key,
    {
        match self {
            MConfigError::KeyNotExists { key } => Some(key),
            MConfigError::MongodbError(_) => None,
        }
    }
}

} // verus!
