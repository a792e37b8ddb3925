use minimal_importer::heap::{Heap, NULL};
use minimal_importer::student::{
    create_student, dealloc_student, get_student_grade, increase_student_age, safe_create_student,
    safe_get_student_grade, safe_get_student_grade_ptr, safe_increase_student_age, Student,
};

#[test]
fn negative_age_makes_no_student() {
    let mut heap: Heap<Student> = Heap::new();
    assert_eq!(create_student(&mut heap, -1, 3, 7, 20), NULL);
    assert_eq!(heap.allocation_count(), 0);
    assert!(safe_create_student(-1, 3, 7, 20).is_none());
    assert!(safe_create_student(i32::MIN, 3, 7, 20).is_none());
}

#[test]
fn student_is_made_with_its_school() {
    let mut heap: Heap<Student> = Heap::new();
    let student = create_student(&mut heap, 0, 3, 7, 20);
    assert_ne!(student, NULL);
    let record = heap.get(student);
    assert_eq!(record.age(), 0);
    assert_eq!(record.grade(), 3);
    let school = record.school().unwrap();
    assert_eq!(school.district(), 7);
    assert_eq!(school.num_teachers(), 20);
}

#[test]
fn student_grows_one_year_older() {
    let mut heap: Heap<Student> = Heap::new();
    let student = create_student(&mut heap, 10, 4, 1, 2);
    assert_eq!(increase_student_age(&mut heap, student), 11);
    assert_eq!(increase_student_age(&mut heap, student), 12);
    assert_eq!(heap.get(student).age(), 12);
    assert_eq!(get_student_grade(&heap, student), 4);
}

#[test]
fn null_student_gives_the_sentinel() {
    let mut heap: Heap<Student> = Heap::new();
    assert_eq!(increase_student_age(&mut heap, NULL), -1);
    assert_eq!(get_student_grade(&heap, NULL), -1);
    assert_eq!(safe_get_student_grade_ptr(&heap, NULL), None);
    dealloc_student(&mut heap, NULL);
    assert_eq!(heap.deallocation_count(), 0);
}

#[test]
fn dealloc_student_frees_the_record() {
    let mut heap: Heap<Student> = Heap::new();
    let student = create_student(&mut heap, 10, 4, 1, 2);
    assert_eq!(safe_get_student_grade_ptr(&heap, student), Some(4));
    dealloc_student(&mut heap, student);
    assert!(!heap.is_live(student));
    assert_eq!(heap.deallocation_count(), 1);
}

#[test]
fn owned_student_record() {
    let mut student = safe_create_student(16, 11, 42, 60).unwrap();
    assert_eq!(safe_get_student_grade(&student), 11);
    assert_eq!(safe_increase_student_age(&mut student), 17);
    assert_eq!(student.age(), 17);
    assert_eq!(student.grade(), 11);
    assert_eq!(student.school().unwrap().district(), 42);
}
