use vstd::prelude::*;

verus! {

/// What the library reasons about for one participant: plain character sequences.
pub struct UserView {
    pub user_id: Seq<char>,
    pub name: Seq<char>,
    pub avatar: Seq<char>,
    pub current_file: Option<Seq<char>>,
}

/// A connected participant: identity, display metadata and the file in focus.
#[derive(Debug, PartialEq, Eq)]
pub struct User {
    pub user_id: String,
    pub name: String,
    pub avatar: String,
    pub current_file: Option<String>,
}

pub open spec fn opt_view(o: Option<String>) -> Option<Seq<char>> {
    match o {
        Some(s) => Some(s@),
        None => None,
    }
}

impl View for User {
    type V = UserView;

    open spec fn view(&self) -> UserView {
        UserView {
            user_id: self.user_id@,
            name: self.name@,
            avatar: self.avatar@,
            current_file: opt_view(self.current_file),
        }
    }
}

impl Clone for User {
    fn clone(&self) -> (r: User)
        ensures
            r@ == self@,
    {
        let current_file = match &self.current_file {
            Some(f) => Some(f.clone()),
            None => None,
        };
        User {
            user_id: self.user_id.clone(),
            name: self.name.clone(),
            avatar: self.avatar.clone(),
            current_file,
        }
    }
}

} // verus!
