//! The schedule data model: one recurring trigger (`Class`) and the
//! collection loaded at startup (`ClassTable`).

use vstd::prelude::*;

verus! {

/// Mathematical content of one schedule entry: the two labels and the
/// target weekday/hour/minute of the recurring trigger.
pub struct ClassView {
    pub name: Seq<char>,
    pub teacher: Seq<char>,
    pub hour: u32,
    pub minute: u32,
    pub weekday: u32,
}

/// A well-formed entry keeps its fields in clock range: hour 0..=23,
/// minute 0..=59, weekday 0..=6 with Monday mapped to 0.
pub open spec fn valid_entry(c: ClassView) -> bool {
    c.hour <= 23 && c.minute <= 59 && c.weekday <= 6
}

/// One recurring trigger: a named class at a fixed weekday, hour and
/// minute. Immutable once placed in a table; watchers hold copies.
pub struct Class {
    class_name: String,
    class_teacher: String,
    class_hour: u32,
    class_minute: u32,
    class_weekday: u32,
}

impl View for Class {
    type V = ClassView;

    closed spec fn view(&self) -> ClassView {
        ClassView {
            name: self.class_name@,
            teacher: self.class_teacher@,
            hour: self.class_hour,
            minute: self.class_minute,
            weekday: self.class_weekday,
        }
    }
}

impl Class {
    /// An empty entry: blank labels, target Monday 00:00.
    pub fn new() -> (r: Self)
        ensures
            r@.name.len() == 0,
            r@.teacher.len() == 0,
            r@.hour == 0,
            r@.minute == 0,
            r@.weekday == 0,
    {
        Class {
            class_name: String::new(),
            class_teacher: String::new(),
            class_hour: 0,
            class_minute: 0,
            class_weekday: 0,
        }
    }

    /// Builds an entry from its five fields.
    pub fn new_from(
        class_name: String,
        class_teacher: String,
        class_hour: u32,
        class_minute: u32,
        class_weekday: u32,
    ) -> (r: Self)
        ensures
            r@.name == class_name@,
            r@.teacher == class_teacher@,
            r@.hour == class_hour,
            r@.minute == class_minute,
            r@.weekday == class_weekday,
    {
        Class {
            class_name,
            class_teacher,
            class_hour,
            class_minute,
            class_weekday,
        }
    }

    /// Replaces the two labels; the trigger time is untouched.
    pub fn set(&mut self, class_name: String, class_teacher: String)
        ensures
            final(self)@.name == class_name@,
            final(self)@.teacher == class_teacher@,
            final(self)@.hour == old(self)@.hour,
            final(self)@.minute == old(self)@.minute,
            final(self)@.weekday == old(self)@.weekday,
    {
        self.class_name = class_name;
        self.class_teacher = class_teacher;
    }

    pub fn get_name(&self) -> (r: &str)
        ensures
            r@ == self@.name,
    {
        &self.class_name
    }

    pub fn get_teacher(&self) -> (r: &str)
        ensures
            r@ == self@.teacher,
    {
        &self.class_teacher
    }

    pub fn hour(&self) -> (h: u32)
        ensures
            h == self@.hour,
    {
        self.class_hour
    }

    pub fn minute(&self) -> (m: u32)
        ensures
            m == self@.minute,
    {
        self.class_minute
    }

    pub fn weekday(&self) -> (w: u32)
        ensures
            w == self@.weekday,
    {
        self.class_weekday
    }
}

impl Clone for Class {
    /// A clone carries the same entry content.
    fn clone(&self) -> (r: Self)
        ensures
            r@ == self@,
    {
        Class {
            class_name: self.class_name.clone(),
            class_teacher: self.class_teacher.clone(),
            class_hour: self.class_hour,
            class_minute: self.class_minute,
            class_weekday: self.class_weekday,
        }
    }
}

/// The schedule: the list of entries loaded once at startup.
pub struct ClassTable {
    class_list: Vec<Class>,
}

impl View for ClassTable {
    type V = Seq<ClassView>;

    closed spec fn view(&self) -> Seq<ClassView> {
        self.class_list@.map_values(|c: Class| c@)
    }
}

impl ClassTable {
    /// An empty schedule.
    pub fn new() -> (r: Self)
        ensures
            r@.len() == 0,
    {
        ClassTable { class_list: Vec::new() }
    }

    pub fn get_class_list(&self) -> (r: &Vec<Class>)
        ensures
            r@.len() == self@.len(),
            forall|i: int| 0 <= i < r@.len() ==> (#[trigger] r@[i])@ == self@[i],
    {
        &self.class_list
    }

    /// Appends one entry to the schedule.
    pub fn add_class(&mut self, class: Class)
        ensures
            final(self)@ == old(self)@.push(class@),
    {
        self.class_list.push(class);
        proof {
            assert(self@ =~= old(self)@.push(class@));
        }
    }

    /// The number of entries.
    pub fn len(&self) -> (n: usize)
        ensures
            n == self@.len(),
    {
        self.class_list.len()
    }
}

impl Clone for ClassTable {
    /// A clone carries the same entries in the same order.
    fn clone(&self) -> (r: Self)
        ensures
            r@ == self@,
    {
        let mut class_list: Vec<Class> = Vec::new();
        let n = self.class_list.len();
        for i in 0..n
            invariant
                n == self.class_list.len(),
                class_list@.len() == i,
                forall|j: int| 0 <= j < i ==> (#[trigger] class_list@[j])@ == self@[j],
        {
            class_list.push(self.class_list[i].clone());
        }
        let r = ClassTable { class_list };
        proof {
            assert(r@ =~= self@);
        }
        r
    }
}

} // verus!
