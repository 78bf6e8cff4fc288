use vstd::prelude::*;
use vstd::string::*;

verus! {

/// Which signing action a token is generated with.
#[derive(Debug, Clone, Copy, PartialEq, Eq, Structural)]
pub enum TokenPath {
    /// The elevated action, for the administrative role.
    Admin,
    /// The ordinary action, for every other role.
    Standard,
}

pub open spec fn is_admin_spec(user: Seq<char>) -> bool {
    user == "admin"@
}

/// The schema that a role's connections use.
pub open spec fn schema_spec(user: Seq<char>) -> Seq<char> {
    if is_admin_spec(user) {
        "public"@
    } else {
        "myschema"@
    }
}

pub open spec fn token_path_spec(user: Seq<char>) -> TokenPath {
    if is_admin_spec(user) {
        TokenPath::Admin
    } else {
        TokenPath::Standard
    }
}

/// Whether `user` is the administrative role, `admin`.
pub fn is_admin(user: &str) -> (r: bool)
    ensures
        r == is_admin_spec(user@),
{
    let name = user.to_owned();
    let admin = "admin".to_owned();
    proof {
        reveal_strlit("admin");
    }
    name == admin
}

/// The elevated path for the administrative role, the standard path otherwise.
pub fn token_path_for(user: &str) -> (r: TokenPath)
    ensures
        r == token_path_spec(user@),
        (r == TokenPath::Admin) <==> user@ == "admin"@,
{
    if is_admin(user) {
        TokenPath::Admin
    } else {
        TokenPath::Standard
    }
}

/// `public` for the administrative role, `myschema` for every other one.
pub fn schema_for(user: &str) -> (r: String)
    ensures
        r@ == schema_spec(user@),
{
    if is_admin(user) {
        String::from_str("public")
    } else {
        String::from_str("myschema")
    }
}

pub open spec fn search_path_statement_spec(schema: Seq<char>) -> Seq<char> {
    "SET search_path = "@ + schema
}

/// The statement that each new connection runs to select its schema.
pub fn search_path_statement(schema: &str) -> (r: String)
    ensures
        r@ == search_path_statement_spec(schema@),
{
    String::from_str("SET search_path = ").concat(schema)
}

} // verus!
