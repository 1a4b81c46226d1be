use vstd::prelude::*;
use vstd::string::*;
use crate::text::{decimal, flag_text, push_decimal, push_flag};

verus! {

/// The youngest age at which a student record may be created.
pub const MIN_AGE: u8 = 18;

/// The three-line text of a record. The third line has no separator between
/// its label and its value.
pub open spec fn record_text(name: Seq<char>, age: nat, is_active: bool) -> Seq<char> {
    "Name:"@ + name + "\nAge:"@ + decimal(age) + "\nis_active"@ + flag_text(is_active)
}

/// The message of the error returned for an age below the minimum.
pub open spec fn age_error_text() -> Seq<char> {
    "age is not valid. student must be older than 18"@
}

/// One learner: a name, an age of at least `MIN_AGE`, and an active flag that
/// is always set. A record is only made by `create_student` and never changes.
pub struct Student {
    name: String,
    age: u8,
    is_active: bool,
}

impl Student {
    #[verifier::type_invariant]
    spec fn well_formed(self) -> bool {
        self.age >= MIN_AGE && self.is_active
    }

    /// The name of the record.
    pub closed spec fn spec_name(&self) -> Seq<char> {
        self.name@
    }

    /// The age of the record.
    pub closed spec fn spec_age(&self) -> u8 {
        self.age
    }

    /// The active flag of the record.
    pub closed spec fn spec_is_active(&self) -> bool {
        self.is_active
    }

    /// Builds a record from a name and an age. An age below `MIN_AGE` is
    /// rejected with a message and no record is made; otherwise the record
    /// keeps the name and the age unchanged and is active.
    pub fn create_student(name: String, age: u8) -> (r: Result<Student, String>)
        ensures
            age < MIN_AGE <==> r is Err,
            r is Err ==> r->Err_0@ == age_error_text(),
            r is Ok ==> r->Ok_0.spec_name() == name@ && r->Ok_0.spec_age() == age
                && r->Ok_0.spec_is_active(),
    {
        if age < MIN_AGE {
            Err(String::from_str("age is not valid. student must be older than 18"))
        } else {
            Ok(Student { name, age, is_active: true })
        }
    }

    /// The name of the record.
    pub fn name(&self) -> (r: &String)
        ensures
            r@ == self.spec_name(),
    {
        &self.name
    }

    /// The age of the record, which is never below `MIN_AGE`.
    pub fn age(&self) -> (r: u8)
        ensures
            r == self.spec_age(),
            r >= MIN_AGE,
    {
        proof {
            use_type_invariant(self);
        }
        self.age
    }

    /// The active flag of the record, which is always set.
    pub fn is_active(&self) -> (r: bool)
        ensures
            r == self.spec_is_active(),
            r,
    {
        proof {
            use_type_invariant(self);
        }
        self.is_active
    }
}

/// The text of a record: `Name:<name>`, `Age:<age>` and `is_active<flag>` on
/// three lines, with no newline at the end.
pub fn render_student(student: &Student) -> (r: String)
    ensures
        r@ == record_text(student.spec_name(), student.spec_age() as nat, student.spec_is_active()),
{
    let mut out = String::from_str("Name:");
    out.append(student.name.as_str());
    out.append("\nAge:");
    push_decimal(&mut out, student.age as u32);
    out.append("\nis_active");
    push_flag(&mut out, student.is_active);
    out
}

} // verus!
