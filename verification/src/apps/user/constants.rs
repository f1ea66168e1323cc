//! Kinds of account and genders, with their stored numbers.
use vstd::prelude::*;

verus! {

/// Kind of account: 1 for an ordinary user, 2 for internal staff.
#[derive(Clone, Copy, Debug, PartialEq, Eq, Structural)]
pub enum ClassType {
    User,
    InternalStaff,
}

/// Gender: 1 for male, 2 for female.
#[derive(Clone, Copy, Debug, PartialEq, Eq, Structural)]
pub enum GenderType {
    Male,
    Female,
}

/// The stored number of a kind of account.
pub open spec fn class_number(c: ClassType) -> i16 {
    match c {
        ClassType::User => 1,
        ClassType::InternalStaff => 2,
    }
}

/// The stored number of a gender.
pub open spec fn gender_number(g: GenderType) -> i16 {
    match g {
        GenderType::Male => 1,
        GenderType::Female => 2,
    }
}

impl ClassType {
    /// The stored number.
    pub fn as_i16(&self) -> (r: i16)
        ensures
            r == class_number(*self),
    {
        match self {
            ClassType::User => 1,
            ClassType::InternalStaff => 2,
        }
    }

    /// The kind of account stored as `n`, if any.
    pub fn from_i16(n: i16) -> (r: Option<ClassType>)
        ensures
            match r {
                Some(c) => class_number(c) == n,
                None => n != 1 && n != 2,
            },
    {
        if n == 1 {
            Some(ClassType::User)
        } else if n == 2 {
            Some(ClassType::InternalStaff)
        } else {
            None
        }
    }
}

impl Default for ClassType {
    fn default() -> (r: Self)
        ensures
            r == ClassType::User,
    {
        ClassType::User
    }
}

impl GenderType {
    /// The stored number.
    pub fn as_i16(&self) -> (r: i16)
        ensures
            r == gender_number(*self),
    {
        match self {
            GenderType::Male => 1,
            GenderType::Female => 2,
        }
    }

    /// The gender stored as `n`, if any.
    pub fn from_i16(n: i16) -> (r: Option<GenderType>)
        ensures
            match r {
                Some(g) => gender_number(g) == n,
                None => n != 1 && n != 2,
            },
    {
        if n == 1 {
            Some(GenderType::Male)
        } else if n == 2 {
            Some(GenderType::Female)
        } else {
            None
        }
    }
}

impl Default for GenderType {
    fn default() -> (r: Self)
        ensures
            r == GenderType::Male,
    {
        GenderType::Male
    }
}

/// Reading back a stored number gives the kind or gender that was stored.
pub proof fn law_stored_numbers_read_back(c: ClassType, g: GenderType)
    ensures
        class_number(c) == 1 || class_number(c) == 2,
        gender_number(g) == 1 || gender_number(g) == 2,
        forall|c2: ClassType| class_number(c2) == class_number(c) ==> c2 == c,
        forall|g2: GenderType| gender_number(g2) == gender_number(g) ==> g2 == g,
{
}

} // verus!
