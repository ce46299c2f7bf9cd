//! What the editor remembers so that edits can be undone.
use crate::editor::{annotation_models, copy_annotations, AnnotationModel, EditorAnnotation};
use vstd::prelude::*;

verus! {

#[derive(Debug, Clone, PartialEq, Eq)]
struct EditorSnapshot {
    annotations: Vec<EditorAnnotation>,
    next_step_number: u32,
}

/// The states to which an edit can be undone, the latest one last.
#[derive(Debug, Clone, PartialEq, Eq)]
pub struct EditHistory {
    undo_stack: Vec<EditorSnapshot>,
}

/// A state to which an edit can be undone, as a mathematical value.
pub struct SnapshotModel {
    pub annotations: Seq<AnnotationModel>,
    pub next_step_number: u32,
}

impl View for EditHistory {
    type V = Seq<SnapshotModel>;

    closed spec fn view(&self) -> Seq<SnapshotModel> {
        Seq::new(
            self.undo_stack@.len(),
            |i: int|
                SnapshotModel {
                    annotations: annotation_models(self.undo_stack@[i].annotations@),
                    next_step_number: self.undo_stack@[i].next_step_number,
                },
        )
    }
}

impl Default for EditHistory {
    /// A history without states.
    fn default() -> (r: Self)
        ensures
            r@ == Seq::<SnapshotModel>::empty(),
    {
        let history = EditHistory { undo_stack: Vec::new() };
        assert(history@ =~= Seq::<SnapshotModel>::empty());
        history
    }
}

impl EditHistory {
    /// Remembers a state.
    pub fn push(&mut self, annotations: &[EditorAnnotation], next_step_number: u32)
        ensures
            final(self)@ == old(self)@.push(
                SnapshotModel {
                    annotations: annotation_models(annotations@),
                    next_step_number,
                },
            ),
    {
        let snapshot = EditorSnapshot {
            annotations: copy_annotations(annotations),
            next_step_number,
        };
        self.undo_stack.push(snapshot);
        assert(self@ =~= old(self)@.push(
            SnapshotModel { annotations: annotation_models(annotations@), next_step_number },
        ));
    }

    /// Takes the latest state back out.
    pub fn undo(&mut self) -> (r: Option<(Vec<EditorAnnotation>, u32)>)
        ensures
            match r {
                Some((annotations, next_step_number)) => {
                    &&& old(self)@.len() > 0
                    &&& final(self)@ == old(self)@.drop_last()
                    &&& annotation_models(annotations@) == old(self)@.last().annotations
                    &&& next_step_number == old(self)@.last().next_step_number
                },
                None => old(self)@.len() == 0 && final(self)@ == old(self)@,
            },
    {
        match self.undo_stack.pop() {
            Some(snapshot) => {
                assert(self@ =~= old(self)@.drop_last());
                Some((snapshot.annotations, snapshot.next_step_number))
            },
            None => None,
        }
    }

    /// Whether there is a state to go back to.
    pub fn can_undo(&self) -> (r: bool)
        ensures
            r == (self@.len() > 0),
    {
        self.undo_stack.len() > 0
    }

    /// Forgets all states.
    pub fn clear(&mut self)
        ensures
            final(self)@ == Seq::<SnapshotModel>::empty(),
    {
        self.undo_stack.clear();
        assert(self@ =~= Seq::<SnapshotModel>::empty());
    }
}

} // verus!
