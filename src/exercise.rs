use vstd::prelude::*;
use vstd::string::*;
use crate::error::{DsqlError, ErrorKind};

verus! {

pub const CREATE_OWNER_TABLE: &'static str = "CREATE TABLE IF NOT EXISTS owner (
            id UUID NOT NULL DEFAULT gen_random_uuid(),
            name VARCHAR(30) NOT NULL,
            city VARCHAR(80) NOT NULL,
            telephone VARCHAR(20) DEFAULT NULL,
            PRIMARY KEY (id)
        )";

pub const INSERT_OWNER: &'static str = "INSERT INTO owner (name, city, telephone) VALUES ($1, $2, $3)";

pub const SELECT_OWNER_BY_NAME: &'static str = "SELECT * FROM owner WHERE name=$1";

pub const DELETE_SAMPLE_OWNER: &'static str = "DELETE FROM owner WHERE name = 'John Doe'";

pub const SAMPLE_NAME: &'static str = "John Doe";

pub const SAMPLE_CITY: &'static str = "Anytown";

pub const SAMPLE_TELEPHONE: &'static str = "555-555-1999";

/// One row of the `owner` table, as read back.
#[derive(Debug)]
pub struct OwnerRow {
    pub name: String,
    pub city: String,
    pub telephone: String,
}

/// Exactly one row came back, and it holds the sample owner.
pub open spec fn readback_ok(rows: Seq<OwnerRow>) -> bool {
    &&& rows.len() == 1
    &&& rows[0].name@ == "John Doe"@
    &&& rows[0].city@ == "Anytown"@
    &&& rows[0].telephone@ == "555-555-1999"@
}

/// A query error unless the read-back holds exactly the inserted owner.
pub fn check_readback(rows: &Vec<OwnerRow>) -> (r: Result<(), DsqlError>)
    ensures
        r is Ok <==> readback_ok(rows@),
        r matches Err(e) ==> e.kind == ErrorKind::Query,
{
    if rows.len() != 1 {
        return Err(DsqlError::new(ErrorKind::Query, "expected exactly one owner row"));
    }
    let row = &rows[0];
    if row.name != SAMPLE_NAME.to_owned() {
        return Err(DsqlError::new(ErrorKind::Query, "the owner's name differs"));
    }
    if row.city != SAMPLE_CITY.to_owned() {
        return Err(DsqlError::new(ErrorKind::Query, "the owner's city differs"));
    }
    if row.telephone != SAMPLE_TELEPHONE.to_owned() {
        return Err(DsqlError::new(ErrorKind::Query, "the owner's telephone differs"));
    }
    Ok(())
}

} // verus!
