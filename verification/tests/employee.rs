use attendance::auth::{LoginRequest, Role};
use attendance::employee::{
    prepare_employees, EmployeeAdminFields, EmployeeOptionAdmin, EmployeeOptionUser,
    EmployeePassword, EmployeeUserFields,
};
use attendance::error::Error;
use attendance::ids::{new_id, new_ids};
use attendance::password::generate_password;
use chrono::NaiveDate;

const ID: u128 = 0x67e5504410b1426f9247bb680e5fe0c8;

fn is_v4(id: u128) -> bool {
    let u = uuid::Uuid::from_u128(id);
    u.get_version_num() == 4 && u.get_variant() == uuid::Variant::RFC4122
}

fn employee(name: &str, password: &str) -> EmployeePassword {
    EmployeePassword {
        name: name.to_string(),
        email: format!("{}@example.com", name),
        password: password.to_string(),
        phone_number: "9999999999".to_string(),
        dob: NaiveDate::from_ymd_opt(2000, 1, 1).unwrap(),
        role: "User".to_string(),
        designation: "Engineer".to_string(),
        experience: 3,
        address: "Somewhere".to_string(),
    }
}

#[test]
fn new_ids_are_random_v4() {
    assert!(is_v4(new_id()));
    let ids = new_ids(5);
    assert_eq!(ids.len(), 5);
    assert!(ids.iter().all(|id| is_v4(*id)));
    assert_ne!(ids[0], ids[1]);
    assert!(new_ids(0).is_empty());
}

#[test]
fn hash_password_keeps_other_fields() {
    let mut e = employee("ann", "pw");
    e.hash_password(ID);
    assert_eq!(e.password, generate_password("pw", ID));
    assert_eq!(e.name, "ann");
    assert_eq!(e.email, "ann@example.com");
    assert_eq!(e.dob, NaiveDate::from_ymd_opt(2000, 1, 1).unwrap());
    assert_eq!(e.experience, 3);
}

#[test]
fn prepared_employee_signs_in() {
    let (id, stored) = employee("bob", "hunter2").prepare();
    assert!(is_v4(id));
    assert_eq!(stored.password, generate_password("hunter2", id));
    let req = LoginRequest { email: stored.email.clone(), password: "hunter2".to_string(), permanent: None };
    assert_eq!(req.check(id, &stored.password, &stored.role), Ok(Role::User));
    let wrong = LoginRequest { email: stored.email.clone(), password: "hunter3".to_string(), permanent: None };
    assert_eq!(wrong.check(id, &stored.password, &stored.role), Err(Error::WrongCredentialsError));
}

#[test]
fn prepare_employees_pairs_ids() {
    let mut es = vec![employee("a", "p1"), employee("b", "p2"), employee("c", "p3")];
    let ids = prepare_employees(&mut es);
    assert_eq!(ids.len(), 3);
    assert_eq!(es.len(), 3);
    assert_eq!(es[0].password, generate_password("p1", ids[0]));
    assert_eq!(es[1].password, generate_password("p2", ids[1]));
    assert_eq!(es[2].password, generate_password("p3", ids[2]));
    assert_eq!(es[2].name, "c");
    let mut none: Vec<EmployeePassword> = vec![];
    assert!(prepare_employees(&mut none).is_empty());
}

fn user_fields() -> EmployeeUserFields {
    EmployeeUserFields {
        password: "OLDHASH".to_string(),
        phone_number: "111".to_string(),
        address: "Old Street".to_string(),
    }
}

#[test]
fn user_update_nothing_given() {
    let u = EmployeeOptionUser { password: None, phone_number: None, address: None };
    let r = u.apply(ID, user_fields());
    assert_eq!(r.password, "OLDHASH");
    assert_eq!(r.phone_number, "111");
    assert_eq!(r.address, "Old Street");
}

#[test]
fn user_update_all_given() {
    let u = EmployeeOptionUser {
        password: Some("new".to_string()),
        phone_number: Some("222".to_string()),
        address: Some("New Street".to_string()),
    };
    let r = u.apply(ID, user_fields());
    assert_eq!(r.password, generate_password("new", ID));
    assert_eq!(r.phone_number, "222");
    assert_eq!(r.address, "New Street");
}

#[test]
fn user_update_some_given() {
    let u = EmployeeOptionUser { password: None, phone_number: Some("333".to_string()), address: None };
    let r = u.apply(ID, user_fields());
    assert_eq!(r.password, "OLDHASH");
    assert_eq!(r.phone_number, "333");
    assert_eq!(r.address, "Old Street");
}

fn admin_fields() -> EmployeeAdminFields {
    EmployeeAdminFields {
        name: "Ann".to_string(),
        password: "OLDHASH".to_string(),
        phone_number: "111".to_string(),
        role: "User".to_string(),
        designation: 7,
        experience: 2,
        address: "Old Street".to_string(),
    }
}

fn admin_update() -> EmployeeOptionAdmin {
    EmployeeOptionAdmin {
        id: ID,
        name: None,
        password: None,
        phone_number: None,
        role: None,
        designation: None,
        experience: None,
        address: None,
    }
}

#[test]
fn admin_update_nothing_given() {
    let r = admin_update().apply(admin_fields(), None);
    assert_eq!(r.name, "Ann");
    assert_eq!(r.password, "OLDHASH");
    assert_eq!(r.phone_number, "111");
    assert_eq!(r.role, "User");
    assert_eq!(r.designation, 7);
    assert_eq!(r.experience, 2);
    assert_eq!(r.address, "Old Street");
}

#[test]
fn admin_update_all_given() {
    let u = EmployeeOptionAdmin {
        id: ID,
        name: Some("Anne".to_string()),
        password: Some("pw2".to_string()),
        phone_number: Some("222".to_string()),
        role: Some("Admin".to_string()),
        designation: Some("Manager".to_string()),
        experience: Some(5),
        address: Some("New Street".to_string()),
    };
    let r = u.apply(admin_fields(), Some(9));
    assert_eq!(r.name, "Anne");
    assert_eq!(r.password, generate_password("pw2", ID));
    assert_eq!(r.phone_number, "222");
    assert_eq!(r.role, "Admin");
    assert_eq!(r.designation, 9);
    assert_eq!(r.experience, 5);
    assert_eq!(r.address, "New Street");
    let req = LoginRequest { email: String::new(), password: "pw2".to_string(), permanent: Some(true) };
    assert_eq!(req.check(ID, &r.password, &r.role), Ok(Role::Admin));
}

#[test]
fn admin_update_twice_is_once() {
    let make = || EmployeeOptionAdmin {
        experience: Some(11),
        password: Some("pw".to_string()),
        ..admin_update()
    };
    let once = make().apply(admin_fields(), None);
    let twice = make().apply(make().apply(admin_fields(), None), None);
    assert_eq!(once.password, twice.password);
    assert_eq!(once.experience, 11);
    assert_eq!(twice.experience, 11);
    assert_eq!(twice.name, "Ann");
}

#[test]
fn user_update_twice_is_once() {
    let make = || EmployeeOptionUser {
        password: Some("pw".to_string()),
        phone_number: None,
        address: Some("Elm Street".to_string()),
    };
    let once = make().apply(ID, user_fields());
    let twice = make().apply(ID, make().apply(ID, user_fields()));
    assert_eq!(once.password, twice.password);
    assert_eq!(once.phone_number, twice.phone_number);
    assert_eq!(once.address, twice.address);
    let req = LoginRequest { email: String::new(), password: "pw".to_string(), permanent: None };
    assert_eq!(req.check(ID, &twice.password, "User"), Ok(Role::User));
}
