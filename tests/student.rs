use rust_basics::student::{render_student, Student, MIN_AGE};

#[test]
fn adult_is_accepted_with_fields_kept() {
    let s = Student::create_student(String::from("john"), 25).unwrap();
    assert_eq!(s.name(), "john");
    assert_eq!(s.age(), 25);
    assert!(s.is_active());
}

#[test]
fn every_age_from_the_minimum_is_accepted() {
    for age in MIN_AGE..=u8::MAX {
        let s = Student::create_student(String::from("ann"), age).unwrap();
        assert_eq!(s.name(), "ann");
        assert_eq!(s.age(), age);
        assert!(s.is_active());
    }
}

#[test]
fn exactly_eighteen_is_accepted() {
    let s = Student::create_student(String::from("mo"), 18).unwrap();
    assert_eq!(s.age(), 18);
}

#[test]
fn every_age_below_the_minimum_is_rejected() {
    for age in 0..MIN_AGE {
        let r = Student::create_student(String::from("kid"), age);
        assert_eq!(
            r.err(),
            Some(String::from("age is not valid. student must be older than 18"))
        );
    }
}

#[test]
fn seventeen_is_rejected() {
    assert!(Student::create_student(String::from("kid"), 17).is_err());
}

#[test]
fn record_text_for_john() {
    let s = Student::create_student(String::from("john"), 25).unwrap();
    assert_eq!(render_student(&s), "Name:john\nAge:25\nis_activetrue");
}

#[test]
fn record_text_with_three_digit_age() {
    let s = Student::create_student(String::from("old"), 255).unwrap();
    assert_eq!(render_student(&s), "Name:old\nAge:255\nis_activetrue");
    let s = Student::create_student(String::from("cent"), 100).unwrap();
    assert_eq!(render_student(&s), "Name:cent\nAge:100\nis_activetrue");
}

#[test]
fn record_text_with_empty_and_unicode_name() {
    let s = Student::create_student(String::new(), 18).unwrap();
    assert_eq!(render_student(&s), "Name:\nAge:18\nis_activetrue");
    let s = Student::create_student(String::from("Zoë 🦀"), 42).unwrap();
    assert_eq!(render_student(&s), "Name:Zoë 🦀\nAge:42\nis_activetrue");
}

#[test]
fn record_text_reflects_only_its_own_record() {
    let a = Student::create_student(String::from("john"), 25).unwrap();
    let b = Student::create_student(String::from("mary"), 30).unwrap();
    let _ = render_student(&a);
    assert_eq!(render_student(&b), "Name:mary\nAge:30\nis_activetrue");
}
