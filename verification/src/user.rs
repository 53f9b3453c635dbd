use vstd::prelude::*;

verus! {

/// The single managed entity: a person record with a store-assigned
/// identifier. The identifier is absent before the record is first
/// persisted; the Record Store assigns it at creation time.
#[derive(Debug)]
pub struct User {
    pub id: Option<String>,
    pub first_name: String,
    pub last_name: String,
    pub email: String,
}

/// The mathematical value of a record: the identifier, if assigned, and
/// the three opaque text fields, each as a sequence of characters.
pub struct UserView {
    pub id: Option<Seq<char>>,
    pub first_name: Seq<char>,
    pub last_name: Seq<char>,
    pub email: Seq<char>,
}

impl View for User {
    type V = UserView;

    open spec fn view(&self) -> UserView {
        UserView {
            id: match self.id {
                Option::Some(s) => Option::Some(s@),
                Option::None => Option::None,
            },
            first_name: self.first_name@,
            last_name: self.last_name@,
            email: self.email@,
        }
    }
}

impl DeepView for User {
    type V = UserView;

    open spec fn deep_view(&self) -> UserView {
        self@
    }
}

impl Clone for User {
    fn clone(&self) -> (r: Self)
        ensures
            r@ == self@,
    {
        User {
            id: match &self.id {
                Option::Some(s) => Option::Some(s.clone()),
                Option::None => Option::None,
            },
            first_name: self.first_name.clone(),
            last_name: self.last_name.clone(),
            email: self.email.clone(),
        }
    }
}

impl User {
    /// Field-wise equality of the mathematical values of two records.
    pub fn equal_to(&self, other: &User) -> (r: bool)
        ensures
            r == (self@ == other@),
    {
        let ids_equal = match (&self.id, &other.id) {
            (Option::Some(a), Option::Some(b)) => a.eq(b),
            (Option::None, Option::None) => true,
            _ => false,
        };
        ids_equal && self.first_name.eq(&other.first_name)
            && self.last_name.eq(&other.last_name) && self.email.eq(&other.email)
    }
}

} // verus!
