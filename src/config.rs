use vstd::prelude::*;

verus! {

/// Where the document database listens.
pub const MONGODB_URI: &'static str = "mongodb://localhost:27017";

/// The database that holds the collections.
pub const MONGO_DB_NAME: &'static str = "mind_vault_v1";

/// Connection settings of the document database.
#[derive(Debug, Clone)]
pub struct MongoConfig {
    pub uri: String,
    pub db_name: String,
}

impl MongoConfig {
    /// The connection settings in use: the fixed local address and database name.
    pub fn from_env() -> (r: MongoConfig)
        ensures
            r.uri@ == MONGODB_URI@,
            r.db_name@ == MONGO_DB_NAME@,
    {
        let uri = MONGODB_URI.to_string();
        let db_name = MONGO_DB_NAME.to_string();
        proof {
            vstd::string::to_string_from_display_ensures_for_str(MONGODB_URI, uri);
            vstd::string::to_string_from_display_ensures_for_str(MONGO_DB_NAME, db_name);
        }
        MongoConfig { uri, db_name }
    }
}

} // verus!
