//! Pokemon types.
use vstd::prelude::*;

verus! {

/// A type: key, display name, icon and colour.
#[derive(Debug)]
pub struct Type {
    pub key: String,
    pub name: String,
    pub icon: String,
    pub color: [u8; 3],
}

/// The one or two types of a species.
#[derive(Debug)]
pub enum Types {
    One(Type),
    Two(Type, Type),
}

impl Clone for Type {
    fn clone(&self) -> (copy: Self)
        ensures
            copy == *self,
    {
        Type {
            key: self.key.clone(),
            name: self.name.clone(),
            icon: self.icon.clone(),
            color: self.color,
        }
    }
}

impl Clone for Types {
    fn clone(&self) -> (copy: Self)
        ensures
            copy == *self,
    {
        match self {
            Types::One(a) => Types::One(a.clone()),
            Types::Two(a, b) => Types::Two(a.clone(), b.clone()),
        }
    }
}

} // verus!
