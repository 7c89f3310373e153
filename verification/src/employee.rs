//! Employee records: new employees with their passwords, and the updates
//! that an administrator or the employee may make.

use vstd::prelude::*;

use crate::ids::{is_random_uuid, new_id, new_ids};
use crate::password::{generate_password, hashable, password_hash};

verus! {

#[verifier::external_type_specification]
#[verifier::external_body]
pub struct ExNaiveDate(chrono::NaiveDate);

/// A new employee as submitted, with the password in the clear.
pub struct EmployeePassword {
    pub name: String,
    pub email: String,
    pub password: String,
    pub phone_number: String,
    pub dob: chrono::NaiveDate,
    pub role: String,
    pub designation: String,
    pub experience: i32,
    pub address: String,
}

impl EmployeePassword {
    /// Replaces the clear password by its stored form for identifier `id`;
    /// every other field stays as it was.
    pub fn hash_password(&mut self, id: u128)
        requires
            hashable(old(self).password@),
        ensures
            final(self).password@ == password_hash(old(self).password@, id),
            final(self).name == old(self).name,
            final(self).email == old(self).email,
            final(self).phone_number == old(self).phone_number,
            final(self).dob == old(self).dob,
            final(self).role == old(self).role,
            final(self).designation == old(self).designation,
            final(self).experience == old(self).experience,
            final(self).address == old(self).address,
    {
        let hashed = generate_password(self.password.as_str(), id);
        self.password = hashed;
    }

    /// Makes a new employee ready to store: a fresh identifier, and the
    /// password replaced by its stored form for that identifier.
    pub fn prepare(self) -> (r: (u128, EmployeePassword))
        requires
            hashable(self.password@),
        ensures
            is_random_uuid(r.0),
            r.1.password@ == password_hash(self.password@, r.0),
            r.1.name == self.name,
            r.1.email == self.email,
            r.1.phone_number == self.phone_number,
            r.1.dob == self.dob,
            r.1.role == self.role,
            r.1.designation == self.designation,
            r.1.experience == self.experience,
            r.1.address == self.address,
    {
        let mut e = self;
        let id = new_id();
        e.hash_password(id);
        (id, e)
    }
}

/// Whether `new` is `old` with its password replaced by the stored form
/// for identifier `id`.
pub open spec fn hashed_copy(old: EmployeePassword, new: EmployeePassword, id: u128) -> bool {
    &&& new.password@ == password_hash(old.password@, id)
    &&& new.name == old.name
    &&& new.email == old.email
    &&& new.phone_number == old.phone_number
    &&& new.dob == old.dob
    &&& new.role == old.role
    &&& new.designation == old.designation
    &&& new.experience == old.experience
    &&& new.address == old.address
}

/// Makes new employees ready to store: one fresh identifier each, and each
/// password replaced by its stored form for the employee's identifier.
pub fn prepare_employees(employees: &mut Vec<EmployeePassword>) -> (ids: Vec<u128>)
    requires
        forall|i: int| 0 <= i < old(employees)@.len() ==> hashable(#[trigger] old(employees)@[i].password@),
    ensures
        ids@.len() == old(employees)@.len(),
        final(employees)@.len() == old(employees)@.len(),
        forall|i: int|
            0 <= i < ids@.len() ==> is_random_uuid(#[trigger] ids@[i]) && hashed_copy(
                old(employees)@[i],
                final(employees)@[i],
                ids@[i],
            ),
{
    let n = employees.len();
    let ids = new_ids(n);
    let ghost start = employees@;
    let mut i: usize = 0;
    while i < n
        invariant
            n == start.len(),
            ids@.len() == n,
            employees@.len() == n,
            i <= n,
            forall|j: int| 0 <= j < n ==> is_random_uuid(#[trigger] ids@[j]),
            forall|j: int| 0 <= j < n ==> hashable(#[trigger] start[j].password@),
            forall|j: int| 0 <= j < i ==> hashed_copy(start[j], #[trigger] employees@[j], ids@[j]),
            forall|j: int| i <= j < n ==> #[trigger] employees@[j] == start[j],
        decreases n - i,
    {
        let id = ids[i];
        assert(employees@[i as int] == start[i as int]);
        employees[i].hash_password(id);
        i = i + 1;
    }
    ids
}

/// The fields of a stored employee that the employee may change: the
/// stored password hash, the phone number and the address.
pub struct EmployeeUserFields {
    pub password: String,
    pub phone_number: String,
    pub address: String,
}

/// The text of an employee's self-editable fields.
pub struct UserFieldsView {
    pub password: Seq<char>,
    pub phone_number: Seq<char>,
    pub address: Seq<char>,
}

impl View for EmployeeUserFields {
    type V = UserFieldsView;

    open spec fn view(&self) -> UserFieldsView {
        UserFieldsView {
            password: self.password@,
            phone_number: self.phone_number@,
            address: self.address@,
        }
    }
}

/// An employee's change to their own record: each field given replaces
/// the stored one (a password in the clear, to be hashed).
pub struct EmployeeOptionUser {
    pub password: Option<String>,
    pub phone_number: Option<String>,
    pub address: Option<String>,
}

/// The text of an employee's change to their own record.
pub struct UserUpdateView {
    pub password: Option<Seq<char>>,
    pub phone_number: Option<Seq<char>>,
    pub address: Option<Seq<char>>,
}

/// The text of an optional string.
pub open spec fn opt_view(o: Option<String>) -> Option<Seq<char>> {
    match o {
        Some(s) => Some(s@),
        None => None,
    }
}

/// The given value if there is one, else the stored one.
pub open spec fn or_keep<T>(given: Option<T>, stored: T) -> T {
    match given {
        Some(v) => v,
        None => stored,
    }
}

/// The stored form of a given clear password, else the stored hash.
pub open spec fn new_hash(given: Option<Seq<char>>, id: u128, stored: Seq<char>) -> Seq<char> {
    match given {
        Some(p) => password_hash(p, id),
        None => stored,
    }
}

/// Whether a given clear password, if any, can be hashed.
pub open spec fn hashable_if_given(given: Option<Seq<char>>) -> bool {
    given matches Some(p) ==> hashable(p)
}

impl View for EmployeeOptionUser {
    type V = UserUpdateView;

    open spec fn view(&self) -> UserUpdateView {
        UserUpdateView {
            password: opt_view(self.password),
            phone_number: opt_view(self.phone_number),
            address: opt_view(self.address),
        }
    }
}

/// The self-editable fields of employee `id` after the change `u`.
pub open spec fn user_update(u: UserUpdateView, id: u128, current: UserFieldsView) -> UserFieldsView {
    UserFieldsView {
        password: new_hash(u.password, id, current.password),
        phone_number: or_keep(u.phone_number, current.phone_number),
        address: or_keep(u.address, current.address),
    }
}

/// The stored hash of a given clear password for `id`, else `stored`.
fn hash_or_keep(given: Option<String>, id: u128, stored: String) -> (r: String)
    requires
        hashable_if_given(opt_view(given)),
    ensures
        r@ == new_hash(opt_view(given), id, stored@),
{
    match given {
        Some(p) => generate_password(p.as_str(), id),
        None => stored,
    }
}

/// The given value if there is one, else the stored one.
fn keep_unless_given<T>(given: Option<T>, stored: T) -> (r: T)
    ensures
        r == or_keep(given, stored),
{
    match given {
        Some(v) => v,
        None => stored,
    }
}

impl EmployeeOptionUser {
    /// Applies the change to the stored self-editable fields of employee
    /// `id`.
    pub fn apply(self, id: u128, current: EmployeeUserFields) -> (r: EmployeeUserFields)
        requires
            hashable_if_given(self@.password),
        ensures
            r@ == user_update(self@, id, current@),
    {
        let ghost u = self@;
        let ghost c = current@;
        let EmployeeOptionUser { password, phone_number, address } = self;
        let EmployeeUserFields { password: stored_password, phone_number: stored_phone, address: stored_address } = current;
        let r = EmployeeUserFields {
            password: hash_or_keep(password, id, stored_password),
            phone_number: keep_unless_given(phone_number, stored_phone),
            address: keep_unless_given(address, stored_address),
        };
        assert(r@ == user_update(u, id, c));
        r
    }
}

/// The fields of a stored employee that an administrator may change.
pub struct EmployeeAdminFields {
    pub name: String,
    pub password: String,
    pub phone_number: String,
    pub role: String,
    pub designation: u128,
    pub experience: i32,
    pub address: String,
}

/// The text and values of an employee's administrator-editable fields.
pub struct AdminFieldsView {
    pub name: Seq<char>,
    pub password: Seq<char>,
    pub phone_number: Seq<char>,
    pub role: Seq<char>,
    pub designation: u128,
    pub experience: i32,
    pub address: Seq<char>,
}

impl View for EmployeeAdminFields {
    type V = AdminFieldsView;

    open spec fn view(&self) -> AdminFieldsView {
        AdminFieldsView {
            name: self.name@,
            password: self.password@,
            phone_number: self.phone_number@,
            role: self.role@,
            designation: self.designation,
            experience: self.experience,
            address: self.address@,
        }
    }
}

/// An administrator's change to the employee `id`: each field given
/// replaces the stored one (a password in the clear, to be hashed; a
/// designation by name, to be looked up).
pub struct EmployeeOptionAdmin {
    pub id: u128,
    pub name: Option<String>,
    pub password: Option<String>,
    pub phone_number: Option<String>,
    pub role: Option<String>,
    pub designation: Option<String>,
    pub experience: Option<i32>,
    pub address: Option<String>,
}

/// The text and values of an administrator's change.
pub struct AdminUpdateView {
    pub id: u128,
    pub name: Option<Seq<char>>,
    pub password: Option<Seq<char>>,
    pub phone_number: Option<Seq<char>>,
    pub role: Option<Seq<char>>,
    pub designation: Option<Seq<char>>,
    pub experience: Option<i32>,
    pub address: Option<Seq<char>>,
}

impl View for EmployeeOptionAdmin {
    type V = AdminUpdateView;

    open spec fn view(&self) -> AdminUpdateView {
        AdminUpdateView {
            id: self.id,
            name: opt_view(self.name),
            password: opt_view(self.password),
            phone_number: opt_view(self.phone_number),
            role: opt_view(self.role),
            designation: opt_view(self.designation),
            experience: self.experience,
            address: opt_view(self.address),
        }
    }
}

/// The designation after the change `u`: the identifier looked up for
/// the designation that `u` names, if it names one; else the stored one.
pub open spec fn new_designation(
    named: Option<Seq<char>>,
    designation_id: Option<u128>,
    stored: u128,
) -> u128 {
    match (named, designation_id) {
        (Some(_), Some(id)) => id,
        _ => stored,
    }
}

/// The administrator-editable fields after the change `u`, where
/// `designation_id` is the identifier of the designation that `u` names,
/// if it names one.
pub open spec fn admin_update(
    u: AdminUpdateView,
    current: AdminFieldsView,
    designation_id: Option<u128>,
) -> AdminFieldsView {
    AdminFieldsView {
        name: or_keep(u.name, current.name),
        password: new_hash(u.password, u.id, current.password),
        phone_number: or_keep(u.phone_number, current.phone_number),
        role: or_keep(u.role, current.role),
        designation: new_designation(u.designation, designation_id, current.designation),
        experience: or_keep(u.experience, current.experience),
        address: or_keep(u.address, current.address),
    }
}

impl EmployeeOptionAdmin {
    /// Applies the change to the stored fields of the employee; the
    /// designation it names, if any, was looked up as `designation_id`,
    /// which is given exactly when the change names a designation.
    pub fn apply(self, current: EmployeeAdminFields, designation_id: Option<u128>) -> (r: EmployeeAdminFields)
        requires
            hashable_if_given(self@.password),
            designation_id is Some <==> self.designation is Some,
        ensures
            r@ == admin_update(self@, current@, designation_id),
    {
        let ghost u = self@;
        let ghost c = current@;
        let EmployeeOptionAdmin { id, name, password, phone_number, role, designation: _, experience, address } = self;
        let EmployeeAdminFields {
            name: stored_name,
            password: stored_password,
            phone_number: stored_phone,
            role: stored_role,
            designation: stored_designation,
            experience: stored_experience,
            address: stored_address,
        } = current;
        let r = EmployeeAdminFields {
            name: keep_unless_given(name, stored_name),
            password: hash_or_keep(password, id, stored_password),
            phone_number: keep_unless_given(phone_number, stored_phone),
            role: keep_unless_given(role, stored_role),
            designation: keep_unless_given(designation_id, stored_designation),
            experience: keep_unless_given(experience, stored_experience),
            address: keep_unless_given(address, stored_address),
        };
        assert(r@ == admin_update(u, c, designation_id));
        r
    }
}

/// An employee stored with the password hash that `prepare` or
/// `prepare_employees` made signs in with the password that was submitted,
/// and gets the submitted role.
pub proof fn lemma_prepared_employee_signs_in(submitted: EmployeePassword, stored: EmployeePassword, id: u128)
    requires
        hashed_copy(submitted, stored, id),
    ensures
        crate::auth::login_outcome(submitted.password@, id, stored.password@, stored.role@) == (
        match crate::auth::role_parse(submitted.role@) {
            Some(r) => Ok(r),
            None => Err(crate::error::Error::ParseError),
        }),
{
}

/// An employee's change to their own record: a change that gives no field
/// leaves the record as it was; making the same change twice is making it
/// once; and after a change that gives a password, that password signs in.
pub proof fn lemma_user_update(u: UserUpdateView, id: u128, current: UserFieldsView, role: crate::auth::Role)
    ensures
        u.password is None && u.phone_number is None && u.address is None ==> user_update(u, id, current) == current,
        user_update(u, id, user_update(u, id, current)) == user_update(u, id, current),
        u.password matches Some(p) ==> crate::auth::login_outcome(
            p,
            id,
            user_update(u, id, current).password,
            crate::auth::role_name(role),
        ) == Ok::<crate::auth::Role, crate::error::Error>(role),
{
    crate::auth::lemma_role_name_parses(role);
}

/// An administrator's change: a change that gives no field leaves the
/// record as it was, and one that names no designation keeps the stored
/// designation; making the same change twice is making it once; and
/// after a change that gives a password, that password signs the employee
/// in.
pub proof fn lemma_admin_update(u: AdminUpdateView, current: AdminFieldsView, designation_id: Option<u128>, role: crate::auth::Role)
    ensures
        u.name is None && u.password is None && u.phone_number is None && u.role is None && u.designation is None
            && u.experience is None && u.address is None ==> admin_update(u, current, designation_id) == current,
        admin_update(u, admin_update(u, current, designation_id), designation_id) == admin_update(u, current, designation_id),
        u.designation is None ==> admin_update(u, current, designation_id).designation == current.designation,
        u.password matches Some(p) ==> crate::auth::login_outcome(
            p,
            u.id,
            admin_update(u, current, designation_id).password,
            crate::auth::role_name(role),
        ) == Ok::<crate::auth::Role, crate::error::Error>(role),
{
    crate::auth::lemma_role_name_parses(role);
}

/// Each field of an employee's own record is decided by that field of the
/// change alone: a field the change gives takes the given value (a given
/// password its stored form for the employee), and a field the change
/// leaves out keeps its stored value, whatever the other fields say.
pub proof fn lemma_user_update_fields(u: UserUpdateView, id: u128, current: UserFieldsView)
    ensures
        u.password is None ==> user_update(u, id, current).password == current.password,
        u.password matches Some(p) ==> user_update(u, id, current).password == password_hash(p, id),
        u.phone_number is None ==> user_update(u, id, current).phone_number == current.phone_number,
        u.phone_number matches Some(x) ==> user_update(u, id, current).phone_number == x,
        u.address is None ==> user_update(u, id, current).address == current.address,
        u.address matches Some(x) ==> user_update(u, id, current).address == x,
{
}

/// Each field of an administrator's change is decided by that field alone:
/// a field the change gives takes the given value (a given password its
/// stored form for the employee `u.id`, a named designation the identifier
/// looked up for it), and a field the change leaves out keeps its stored
/// value, whatever the other fields say.
pub proof fn lemma_admin_update_fields(u: AdminUpdateView, current: AdminFieldsView, designation_id: Option<u128>)
    ensures
        u.name is None ==> admin_update(u, current, designation_id).name == current.name,
        u.name matches Some(x) ==> admin_update(u, current, designation_id).name == x,
        u.password is None ==> admin_update(u, current, designation_id).password == current.password,
        u.password matches Some(p) ==> admin_update(u, current, designation_id).password == password_hash(p, u.id),
        u.phone_number is None ==> admin_update(u, current, designation_id).phone_number == current.phone_number,
        u.phone_number matches Some(x) ==> admin_update(u, current, designation_id).phone_number == x,
        u.role is None ==> admin_update(u, current, designation_id).role == current.role,
        u.role matches Some(x) ==> admin_update(u, current, designation_id).role == x,
        u.designation is None ==> admin_update(u, current, designation_id).designation == current.designation,
        u.designation is Some ==> (designation_id matches Some(d) ==> admin_update(u, current, designation_id).designation == d),
        u.experience is None ==> admin_update(u, current, designation_id).experience == current.experience,
        u.experience matches Some(x) ==> admin_update(u, current, designation_id).experience == x,
        u.address is None ==> admin_update(u, current, designation_id).address == current.address,
        u.address matches Some(x) ==> admin_update(u, current, designation_id).address == x,
{
}

} // verus!
