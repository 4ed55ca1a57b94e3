//! Records of the shared entity store, as modules exchange them.
use vstd::prelude::*;

verus! {

/// A person the platform keeps notes about.
#[derive(Debug, Clone)]
pub struct Person {
    pub id: i64,
    pub name: String,
    pub notes: Option<String>,
    pub is_active: bool,
    pub created_at: String,
}

/// A conversation held with a person.
#[derive(Debug, Clone)]
pub struct Conversation {
    pub id: i64,
    pub person_id: i64,
    pub content: String,
    pub context: Option<String>,
    pub created_at: String,
}

/// A durable fact about a person, ranked by importance.
#[derive(Debug, Clone)]
pub struct Memory {
    pub id: i64,
    pub person_id: i64,
    pub key: String,
    pub value: String,
    pub importance: i32,
    pub created_at: String,
}

} // verus!
