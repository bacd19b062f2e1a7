use vstd::prelude::*;

verus! {

/// The name of the environment variable that holds the connection string.
pub open spec fn spec_database_url_key(is_test: bool) -> Seq<char> {
    if is_test {
        "TEST_DATABASE_URL"@
    } else {
        "DATABASE_URL"@
    }
}

/// The environment variable that holds the connection string: the test
/// source when `is_test` is set, the production source otherwise.
pub fn database_url_key(is_test: bool) -> (r: &'static str)
    ensures
        r@ == spec_database_url_key(is_test),
{
    if is_test {
        "TEST_DATABASE_URL"
    } else {
        "DATABASE_URL"
    }
}

} // verus!
