//! A row of the `users` table, as the handlers read it. The row's creation and
//! update times are not read by any decision and stay with the server.
use vstd::prelude::*;

verus! {

#[derive(Debug, PartialEq, Eq)]
pub struct Model {
    pub id: i32,
    pub name: String,
    pub email: String,
    pub password: String,
    pub token: Option<String>,
    pub coins: i32,
    pub dates: i32,
}

/// A user row with its texts as character sequences.
pub struct ModelView {
    pub id: i32,
    pub name: Seq<char>,
    pub email: Seq<char>,
    pub password: Seq<char>,
    pub token: Option<Seq<char>>,
    pub coins: i32,
    pub dates: i32,
}

/// The characters of an optional text.
pub open spec fn opt_text(s: Option<String>) -> Option<Seq<char>> {
    match s {
        Some(t) => Some(t@),
        None => None,
    }
}

impl View for Model {
    type V = ModelView;

    open spec fn view(&self) -> ModelView {
        ModelView {
            id: self.id,
            name: self.name@,
            email: self.email@,
            password: self.password@,
            token: opt_text(self.token),
            coins: self.coins,
            dates: self.dates,
        }
    }
}

/// Clones an optional text.
pub fn clone_opt_text(s: &Option<String>) -> (c: Option<String>)
    ensures
        opt_text(c) == opt_text(*s),
{
    match s {
        Some(t) => Some(t.clone()),
        None => None,
    }
}

impl Model {
    /// A copy of the row.
    pub fn duplicate(&self) -> (m: Model)
        ensures
            m@ == self@,
    {
        Model {
            id: self.id,
            name: self.name.clone(),
            email: self.email.clone(),
            password: self.password.clone(),
            token: clone_opt_text(&self.token),
            coins: self.coins,
            dates: self.dates,
        }
    }
}

} // verus!
