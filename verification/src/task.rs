//! The task record and the verified selection of matching records.

use vstd::prelude::*;
use crate::matching::contains_ci;

verus! {

/// A task record as the store holds it: a stable identifier and two text
/// fields that a search query is matched against.
#[derive(Debug)]
pub struct Task {
    pub id: String,
    pub title: String,
    pub description: String,
}

/// The mathematical model of a task record.
pub ghost struct TaskView {
    pub id: Seq<char>,
    pub title: Seq<char>,
    pub description: Seq<char>,
}

impl View for Task {
    type V = TaskView;

    open spec fn view(&self) -> TaskView {
        TaskView { id: self.id@, title: self.title@, description: self.description@ }
    }
}

impl DeepView for Task {
    type V = TaskView;

    open spec fn deep_view(&self) -> TaskView {
        self.view()
    }
}

impl Clone for Task {
    fn clone(&self) -> (r: Self)
        ensures
            r == *self,
    {
        let r = Task {
            id: self.id.clone(),
            title: self.title.clone(),
            description: self.description.clone(),
        };
        proof {
            assert(r == *self);
        }
        r
    }
}

/// A record matches a query when its title or its description contains the
/// query as a case-insensitive substring.
pub open spec fn task_matches(t: TaskView, q: Seq<char>) -> bool {
    contains_ci(t.title, q) || contains_ci(t.description, q)
}

/// The records of `ts` that match `q`, in their original order.
pub open spec fn matching_views(ts: Seq<TaskView>, q: Seq<char>) -> Seq<TaskView> {
    ts.filter(|t: TaskView| task_matches(t, q))
}

/// Decides whether one record matches the query.
pub fn record_matches(t: &Task, q: &str) -> (r: bool)
    ensures
        r == task_matches(t@, q@),
{
    crate::matching::str_contains_ci(t.title.as_str(), q)
        || crate::matching::str_contains_ci(t.description.as_str(), q)
}

/// Keeps exactly the records that match the query, in their original order.
pub fn filter_tasks(tasks: &Vec<Task>, q: &str) -> (r: Vec<Task>)
    ensures
        r.deep_view() == matching_views(tasks.deep_view(), q@),
{
    let ghost pred = |t: TaskView| task_matches(t, q@);
    let mut r: Vec<Task> = Vec::new();
    let mut i: usize = 0;
    proof {
        assert(tasks.deep_view().take(0) =~= Seq::<TaskView>::empty());
        reveal(Seq::filter);
    }
    while i < tasks.len()
        invariant
            0 <= i <= tasks.len(),
            tasks.deep_view().len() == tasks.len(),
            r.deep_view() == tasks.deep_view().take(i as int).filter(pred),
            pred == (|t: TaskView| task_matches(t, q@)),
        decreases tasks.len() - i,
    {
        let ghost views = tasks.deep_view();
        let ghost prev = r.deep_view();
        let keep = record_matches(&tasks[i], q);
        if keep {
            r.push(tasks[i].clone());
        }
        proof {
            reveal(Seq::filter);
            assert(views.take(i + 1).drop_last() =~= views.take(i as int));
            assert(views.take(i + 1).last() == views[i as int]);
            assert(views[i as int] == tasks[i as int]@);
            if keep {
                assert(r.deep_view() =~= prev.push(views[i as int]));
            }
            assert(r.deep_view() == views.take(i + 1).filter(pred));
        }
        i += 1;
    }
    proof {
        assert(tasks.deep_view().take(tasks.len() as int) =~= tasks.deep_view());
    }
    r
}

} // verus!
