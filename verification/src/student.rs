use vstd::prelude::*;
use crate::heap::{Heap, NULL};

verus! {

/// A school, as a student's record holds it.
#[derive(Clone, Copy, Debug)]
pub struct School {
    district: i32,
    num_teachers: i32,
}

/// What a school is, to a contract.
pub struct SchoolState {
    pub district: int,
    pub num_teachers: int,
}

impl View for School {
    type V = SchoolState;

    closed spec fn view(&self) -> SchoolState {
        SchoolState { district: self.district as int, num_teachers: self.num_teachers as int }
    }
}

impl School {
    /// The school's district.
    pub fn district(&self) -> (district: i32)
        ensures
            district == self@.district,
    {
        self.district
    }

    /// The number of teachers at the school.
    pub fn num_teachers(&self) -> (num_teachers: i32)
        ensures
            num_teachers == self@.num_teachers,
    {
        self.num_teachers
    }
}

/// A student's record. It owns the record of its school, which goes when
/// the student's record goes.
#[derive(Debug)]
pub struct Student {
    school: Option<School>,
    age: i32,
    grade: i32,
}

/// What a student's record is, to a contract.
pub struct StudentState {
    pub school: Option<SchoolState>,
    pub age: int,
    pub grade: int,
}

impl View for Student {
    type V = StudentState;

    closed spec fn view(&self) -> StudentState {
        StudentState {
            school: match self.school {
                Some(school) => Some(school@),
                None => None,
            },
            age: self.age as int,
            grade: self.grade as int,
        }
    }
}

/// The record that a creation with these arguments makes.
pub open spec fn fresh_student(age: i32, grade: i32, district: i32, num_teachers: i32)
    -> StudentState {
    StudentState {
        school: Some(SchoolState { district: district as int, num_teachers: num_teachers as int }),
        age: age as int,
        grade: grade as int,
    }
}

impl Student {
    /// The student's age.
    pub fn age(&self) -> (age: i32)
        ensures
            age == self@.age,
    {
        self.age
    }

    /// The student's grade.
    pub fn grade(&self) -> (grade: i32)
        ensures
            grade == self@.grade,
    {
        self.grade
    }

    /// The student's school, if the record holds one.
    pub fn school(&self) -> (school: Option<School>)
        ensures
            school is Some <==> self@.school is Some,
            school is Some ==> Some(school->0@) == self@.school,
    {
        self.school
    }
}

/// Allocates the record of a student and returns its address. A negative
/// age is refused: the result is null and nothing is allocated, as it is
/// when the heap has no room.
pub fn create_student(
    heap: &mut Heap<Student>,
    age: i32,
    grade: i32,
    district: i32,
    num_teachers: i32,
) -> (student: usize)
    ensures
        age < 0 || old(heap).is_full() ==> student == NULL && *final(heap) == *old(heap),
        age >= 0 && !old(heap).is_full() ==> {
            &&& student != NULL
            &&& !old(heap)@.contains_key(student)
            &&& final(heap).was_allocated(student)
            &&& final(heap)@.contains_key(student)
            &&& final(heap)@[student]@ == fresh_student(age, grade, district, num_teachers)
            &&& final(heap)@ == old(heap)@.insert(student, final(heap)@[student])
            &&& final(heap).allocations() == old(heap).allocations() + 1
            &&& final(heap).deallocations() == old(heap).deallocations()
        },
{
    if age < 0 {
        return NULL;
    }
    heap.allocate(Student { school: Some(School { district, num_teachers }), age, grade })
}

/// Deallocates the record at `student`, and its school with it. Null is
/// accepted and does nothing.
pub fn dealloc_student(heap: &mut Heap<Student>, student: usize)
    requires
        student == NULL || old(heap)@.contains_key(student),
    ensures
        student == NULL ==> *final(heap) == *old(heap),
        student != NULL ==> {
            &&& final(heap)@ == old(heap)@.remove(student)
            &&& final(heap).deallocations() == old(heap).deallocations() + 1
            &&& final(heap).allocations() == old(heap).allocations()
        },
{
    if student != NULL {
        let _ = heap.free(student);
    }
}

/// Makes the student at `student` one year older and returns the new age,
/// or returns -1 for null.
pub fn increase_student_age(heap: &mut Heap<Student>, student: usize) -> (age: i32)
    requires
        student == NULL || old(heap)@.contains_key(student),
        student != NULL ==> old(heap)@[student]@.age < i32::MAX,
    ensures
        student == NULL ==> age == -1 && *final(heap) == *old(heap),
        student != NULL ==> {
            &&& age == old(heap)@[student]@.age + 1
            &&& final(heap)@.contains_key(student)
            &&& final(heap)@[student]@ == (StudentState { age: age as int, ..old(heap)@[student]@ })
            &&& final(heap)@ == old(heap)@.insert(student, final(heap)@[student])
            &&& final(heap).allocations() == old(heap).allocations()
            &&& final(heap).deallocations() == old(heap).deallocations()
        },
{
    if student == NULL {
        return -1;
    }
    let student = heap.get_mut(student);
    student.age += 1;
    student.age
}

/// The grade of the student at `student`, or -1 for null.
pub fn get_student_grade(heap: &Heap<Student>, student: usize) -> (grade: i32)
    requires
        student == NULL || heap@.contains_key(student),
    ensures
        student == NULL ==> grade == -1,
        student != NULL ==> grade == heap@[student]@.grade,
{
    if student == NULL {
        return -1;
    }
    heap.get(student).grade
}

/// The record of a student, owned by the caller; none for a negative age.
pub fn safe_create_student(age: i32, grade: i32, district: i32, num_teachers: i32) -> (student:
    Option<Box<Student>>)
    ensures
        age < 0 <==> student is None,
        student is Some ==> student->0@ == fresh_student(age, grade, district, num_teachers),
{
    if age < 0 {
        return None;
    }
    Some(Box::new(Student { school: Some(School { district, num_teachers }), age, grade }))
}

/// Makes the student one year older and returns the new age.
pub fn safe_increase_student_age(student: &mut Student) -> (age: i32)
    requires
        old(student)@.age < i32::MAX,
    ensures
        age == old(student)@.age + 1,
        final(student)@ == (StudentState { age: age as int, ..old(student)@ }),
{
    student.age += 1;
    student.age
}

/// The student's grade.
pub fn safe_get_student_grade(student: &Student) -> (grade: i32)
    ensures
        grade == student@.grade,
{
    student.grade
}

/// The grade of the student at `student_ptr`, or none for null.
pub fn safe_get_student_grade_ptr(heap: &Heap<Student>, student_ptr: usize) -> (grade: Option<i32>)
    requires
        student_ptr == NULL || heap@.contains_key(student_ptr),
    ensures
        student_ptr == NULL <==> grade is None,
        grade is Some ==> grade->0 == heap@[student_ptr]@.grade,
{
    if student_ptr == NULL {
        None
    } else {
        Some(heap.get(student_ptr).grade)
    }
}

} // verus!
