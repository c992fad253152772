use vstd::prelude::*;

verus! {

/// A saved task: what to watch and what to run.
pub struct Task {
    pub watch: Vec<String>,
    pub run: Option<String>,
    pub extensions: Option<Vec<String>>,
}

/// The mathematical value of a task.
pub struct TaskView {
    pub watch: Seq<Seq<char>>,
    pub run: Option<Seq<char>>,
    pub extensions: Option<Seq<Seq<char>>>,
}

/// The views of a list of strings.
pub open spec fn strings_view(v: Seq<String>) -> Seq<Seq<char>> {
    v.map_values(|s: String| s@)
}

/// The view of an optional list of strings.
pub open spec fn opt_strings_view(v: Option<Vec<String>>) -> Option<Seq<Seq<char>>> {
    match v {
        Some(l) => Some(strings_view(l@)),
        None => None,
    }
}

/// The view of an optional string.
pub open spec fn opt_string_view(s: Option<String>) -> Option<Seq<char>> {
    match s {
        Some(t) => Some(t@),
        None => None,
    }
}

impl View for Task {
    type V = TaskView;

    open spec fn view(&self) -> TaskView {
        TaskView {
            watch: strings_view(self.watch@),
            run: opt_string_view(self.run),
            extensions: opt_strings_view(self.extensions),
        }
    }
}

/// Copies a list of strings.
pub fn copy_strings(v: &Vec<String>) -> (r: Vec<String>)
    ensures
        r@ == v@,
{
    let mut out: Vec<String> = Vec::new();
    let mut i: usize = 0;
    while i < v.len()
        invariant
            0 <= i <= v.len(),
            out@ == v@.take(i as int),
        decreases v.len() - i,
    {
        out.push(v[i].clone());
        i = i + 1;
        assert(out@ =~= v@.take(i as int));
    }
    assert(v@.take(v@.len() as int) =~= v@);
    out
}

/// Copies an optional list of strings.
pub fn copy_opt_strings(v: &Option<Vec<String>>) -> (r: Option<Vec<String>>)
    ensures
        opt_strings_view(r) == opt_strings_view(*v),
{
    match v {
        Some(l) => Some(copy_strings(l)),
        None => None,
    }
}

impl Task {
    /// A copy of the task.
    pub fn copy(&self) -> (r: Task)
        ensures
            r@ == self@,
    {
        Task {
            watch: copy_strings(&self.watch),
            run: match &self.run {
                Some(s) => Some(s.clone()),
                None => None,
            },
            extensions: copy_opt_strings(&self.extensions),
        }
    }
}

/// A task under its name.
pub struct NamedTask {
    pub name: String,
    pub task: Task,
}

/// The saved tasks, each name at most once, in the order they were added,
/// with the task to run when none is named.
pub struct TaskBook {
    default: Option<String>,
    entries: Vec<NamedTask>,
}

/// Whether no name occurs twice.
pub open spec fn names_unique(es: Seq<(Seq<char>, TaskView)>) -> bool {
    forall|i: int, j: int| 0 <= i < j < es.len() ==> es[i].0 != es[j].0
}

/// Whether a name occurs.
pub open spec fn has_name(es: Seq<(Seq<char>, TaskView)>, name: Seq<char>) -> bool {
    exists|i: int| 0 <= i < es.len() && es[i].0 == name
}

/// The entries after saving `task` under `name`: it replaces the task of
/// that name where there is one, else it comes last.
pub open spec fn saved(es: Seq<(Seq<char>, TaskView)>, name: Seq<char>, task: TaskView) -> Seq<
    (Seq<char>, TaskView),
> {
    if has_name(es, name) {
        es.update(choose|i: int| 0 <= i < es.len() && es[i].0 == name, (name, task))
    } else {
        es.push((name, task))
    }
}

/// The entries without the one of that name.
pub open spec fn without(es: Seq<(Seq<char>, TaskView)>, name: Seq<char>) -> Seq<
    (Seq<char>, TaskView),
> {
    if has_name(es, name) {
        es.remove(choose|i: int| 0 <= i < es.len() && es[i].0 == name)
    } else {
        es
    }
}

/// The task under a name, if any.
pub open spec fn task_named(es: Seq<(Seq<char>, TaskView)>, name: Seq<char>) -> Option<TaskView> {
    if has_name(es, name) {
        Some(es[choose|i: int| 0 <= i < es.len() && es[i].0 == name].1)
    } else {
        None
    }
}

/// A name occurs at most at one place.
proof fn lemma_unique_place(es: Seq<(Seq<char>, TaskView)>, name: Seq<char>, i: int)
    requires
        names_unique(es),
        0 <= i < es.len(),
        es[i].0 == name,
    ensures
        has_name(es, name),
        (choose|k: int| 0 <= k < es.len() && es[k].0 == name) == i,
{
    let k = choose|k: int| 0 <= k < es.len() && es[k].0 == name;
    if k != i {
        if k < i {
            assert(es[k].0 != es[i].0);
        } else {
            assert(es[i].0 != es[k].0);
        }
    }
}

impl View for TaskBook {
    type V = Seq<(Seq<char>, TaskView)>;

    closed spec fn view(&self) -> Seq<(Seq<char>, TaskView)> {
        self.entries@.map_values(|e: NamedTask| (e.name@, e.task@))
    }
}

impl TaskBook {
    /// The task to run when none is named.
    pub closed spec fn default_task(&self) -> Option<String> {
        self.default
    }

    /// The name of the task to run when none is named.
    pub fn default_name(&self) -> (r: Option<String>)
        ensures
            r == self.default_task(),
    {
        match &self.default {
            Some(d) => Some(d.clone()),
            None => None,
        }
    }

    /// Every name occurs once.
    pub open spec fn wf(&self) -> bool {
        names_unique(self@)
    }

    /// A book without tasks.
    pub fn new(default: Option<String>) -> (r: TaskBook)
        ensures
            r.wf(),
            r@.len() == 0,
            r.default_task() == default,
    {
        let r = TaskBook { default, entries: Vec::new() };
        assert(r@ =~= Seq::<(Seq<char>, TaskView)>::empty());
        r
    }

    /// The number of tasks.
    pub fn len(&self) -> (r: usize)
        ensures
            r == self@.len(),
    {
        self.entries.len()
    }

    /// Whether there is no task.
    pub fn is_empty(&self) -> (r: bool)
        ensures
            r == (self@.len() == 0),
    {
        self.entries.len() == 0
    }

    /// The name and task at a place of the list.
    pub fn entry(&self, i: usize) -> (r: (&String, &Task))
        requires
            i < self@.len(),
        ensures
            (r.0@, r.1@) == self@[i as int],
    {
        let e = &self.entries[i];
        (&e.name, &e.task)
    }

    /// The names of the tasks, in order.
    pub fn names(&self) -> (r: Vec<String>)
        ensures
            r@.len() == self@.len(),
            forall|j: int| 0 <= j < r@.len() ==> #[trigger] r@[j]@ == self@[j].0,
    {
        let mut out: Vec<String> = Vec::new();
        let mut i: usize = 0;
        while i < self.entries.len()
            invariant
                0 <= i <= self.entries.len(),
                out@.len() == i,
                forall|j: int| 0 <= j < i ==> #[trigger] out@[j]@ == self@[j].0,
            decreases self.entries.len() - i,
        {
            out.push(self.entries[i].name.clone());
            assert(self@[i as int].0 == self.entries@[i as int].name@);
            i = i + 1;
        }
        out
    }

    /// Where the task of that name stands, if there is one.
    pub fn position(&self, name: &String) -> (r: Option<usize>)
        requires
            self.wf(),
        ensures
            r is None <==> !has_name(self@, name@),
            r matches Some(i) ==> i < self@.len() && self@[i as int].0 == name@ && (choose|k: int|
                0 <= k < self@.len() && self@[k].0 == name@) == i,
    {
        let mut i: usize = 0;
        while i < self.entries.len()
            invariant
                0 <= i <= self.entries.len(),
                self.wf(),
                forall|j: int| 0 <= j < i ==> self@[j].0 != name@,
            decreases self.entries.len() - i,
        {
            assert(self@[i as int].0 == self.entries@[i as int].name@);
            if self.entries[i].name == *name {
                proof {
                    lemma_unique_place(self@, name@, i as int);
                }
                return Some(i);
            }
            i = i + 1;
        }
        None
    }

    /// A copy of the task of that name, if there is one.
    pub fn get(&self, name: &String) -> (r: Option<Task>)
        requires
            self.wf(),
        ensures
            match r {
                Some(t) => task_named(self@, name@) == Some(t@),
                None => task_named(self@, name@) is None,
            },
    {
        match self.position(name) {
            Some(i) => Some(self.entries[i].task.copy()),
            None => None,
        }
    }

    /// Saves a task under a name, replacing the task of that name if any.
    pub fn add(&mut self, name: String, task: Task)
        requires
            old(self).wf(),
        ensures
            final(self).wf(),
            final(self)@ == saved(old(self)@, name@, task@),
            final(self).default_task() == old(self).default_task(),
    {
        let ghost es = self@;
        let ghost entry = (name@, task@);
        match self.position(&name) {
            Some(i) => {
                self.entries.set(i, NamedTask { name, task });
                assert(self@ =~= es.update(i as int, entry));
            },
            None => {
                self.entries.push(NamedTask { name, task });
                assert(self@ =~= es.push(entry));
                assert forall|i: int, j: int| 0 <= i < j < self@.len() implies self@[i].0
                    != self@[j].0 by {
                    if j == es.len() {
                        assert(!(0 <= i < es.len() && es[i].0 == entry.0));
                    }
                }
            },
        }
    }

    /// Removes the task of that name; tells whether there was one.
    pub fn remove(&mut self, name: &String) -> (r: bool)
        requires
            old(self).wf(),
        ensures
            final(self).wf(),
            r == has_name(old(self)@, name@),
            final(self)@ == without(old(self)@, name@),
            final(self).default_task() == old(self).default_task(),
    {
        let ghost es = self@;
        match self.position(name) {
            Some(i) => {
                self.entries.remove(i);
                assert(self@ =~= es.remove(i as int));
                assert forall|a: int, b: int| 0 <= a < b < self@.len() implies self@[a].0
                    != self@[b].0 by {
                    let a0 = if a < i { a } else { a + 1 };
                    let b0 = if b < i { b } else { b + 1 };
                    assert(self@[a] == es[a0]);
                    assert(self@[b] == es[b0]);
                }
                true
            },
            None => false,
        }
    }

    /// Changes the given fields of the task of that name: the run command
    /// and the extensions where given, the watch list where not empty. Tells
    /// whether there was such a task.
    pub fn edit(
        &mut self,
        name: &String,
        watch: Vec<String>,
        run: Option<String>,
        extensions: Option<Vec<String>>,
    ) -> (r: bool)
        requires
            old(self).wf(),
        ensures
            final(self).wf(),
            r == has_name(old(self)@, name@),
            final(self).default_task() == old(self).default_task(),
            !r ==> final(self)@ == old(self)@,
            r ==> final(self)@ == saved(
                old(self)@,
                name@,
                edited(task_named(old(self)@, name@)->Some_0, watch@, run, extensions),
            ),
    {
        match self.position(name) {
            Some(i) => {
                let old_task = self.entries[i].task.copy();
                let task = Task {
                    watch: if watch.len() > 0 {
                        watch
                    } else {
                        old_task.watch
                    },
                    run: match run {
                        Some(x) => Some(x),
                        None => old_task.run,
                    },
                    extensions: match extensions {
                        Some(x) => Some(x),
                        None => old_task.extensions,
                    },
                };
                self.add(name.clone(), task);
                true
            },
            None => false,
        }
    }

    /// Moves the task of `name` to `new_name`, replacing any task already
    /// there. Tells whether there was a task of that name.
    pub fn rename(&mut self, name: &String, new_name: String) -> (r: bool)
        requires
            old(self).wf(),
        ensures
            final(self).wf(),
            r == has_name(old(self)@, name@),
            final(self).default_task() == old(self).default_task(),
            !r ==> final(self)@ == old(self)@,
            r ==> final(self)@ == saved(
                without(old(self)@, name@),
                new_name@,
                task_named(old(self)@, name@)->Some_0,
            ),
    {
        match self.position(name) {
            Some(i) => {
                let task = self.entries[i].task.copy();
                self.remove(name);
                self.add(new_name, task);
                true
            },
            None => false,
        }
    }
}

/// A task with the given fields changed: the watch list where not empty,
/// the run command and the extensions where given.
pub open spec fn edited(
    t: TaskView,
    watch: Seq<String>,
    run: Option<String>,
    extensions: Option<Vec<String>>,
) -> TaskView {
    TaskView {
        watch: if watch.len() > 0 {
            strings_view(watch)
        } else {
            t.watch
        },
        run: match run {
            Some(x) => Some(x@),
            None => t.run,
        },
        extensions: match extensions {
            Some(x) => Some(strings_view(x@)),
            None => t.extensions,
        },
    }
}

} // verus!
