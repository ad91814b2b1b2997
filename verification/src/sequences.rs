//! What is known of the models' animation sequences.
use vstd::prelude::*;

use crate::scalar::Scalar;
use crate::text::same_name;

verus! {

/// A sequence's length and whether it starts over at its end.
#[derive(Debug, Clone, Copy, PartialEq, Eq, Structural)]
pub struct SequenceInfo {
    pub duration: Scalar,
    pub loops: bool,
}

/// What the table says of a sequence.
#[derive(Debug, Clone, Copy, PartialEq, Eq, Structural)]
pub enum Lookup {
    /// The model has not been loaded.
    Unknown,
    /// The model has no sequence of that name.
    Missing,
    Found(SequenceInfo),
}

/// A sequence's label and what is known of it.
#[derive(Debug)]
pub struct Sequence {
    pub label: String,
    pub info: SequenceInfo,
}

/// A loaded model and its sequences.
#[derive(Debug)]
pub struct LoadedModel {
    pub model: String,
    pub sequences: Vec<Sequence>,
}

/// The sequences of every model that has been loaded.
#[derive(Debug)]
pub struct SequenceTable {
    pub models: Vec<LoadedModel>,
}

/// The first sequence at or after place `i` with a label.
pub open spec fn labelled(sequences: Seq<Sequence>, label: Seq<char>, i: int) -> Lookup
    decreases sequences.len() - i,
{
    if 0 <= i < sequences.len() {
        if same_name(sequences[i].label@, label) {
            Lookup::Found(sequences[i].info)
        } else {
            labelled(sequences, label, i + 1)
        }
    } else {
        Lookup::Missing
    }
}

/// A label's entry under the first model at or after place `i` of that name.
pub open spec fn looked_up(
    models: Seq<LoadedModel>,
    model: Seq<char>,
    label: Seq<char>,
    i: int,
) -> Lookup
    decreases models.len() - i,
{
    if 0 <= i < models.len() {
        if same_name(models[i].model@, model) {
            labelled(models[i].sequences@, label, 0)
        } else {
            looked_up(models, model, label, i + 1)
        }
    } else {
        Lookup::Unknown
    }
}

impl SequenceTable {
    pub open spec fn entry(&self, model: Seq<char>, label: Seq<char>) -> Lookup {
        looked_up(self.models@, model, label, 0)
    }

    /// What is known of a model's sequence.
    pub fn lookup(&self, model: &str, label: &str) -> (r: Lookup)
        ensures
            r == self.entry(model@, label@),
    {
        let mut i: usize = 0;
        while i < self.models.len()
            invariant
                i <= self.models.len(),
                self.entry(model@, label@) == looked_up(self.models@, model@, label@, i as int),
            decreases self.models.len() - i,
        {
            if self.models[i].model.as_str().eq_ignore_ascii_case(model) {
                let sequences = &self.models[i].sequences;
                let mut k: usize = 0;
                while k < sequences.len()
                    invariant
                        k <= sequences.len(),
                        self.entry(model@, label@) == labelled(sequences@, label@, k as int),
                    decreases sequences.len() - k,
                {
                    if sequences[k].label.as_str().eq_ignore_ascii_case(label) {
                        return Lookup::Found(sequences[k].info);
                    }
                    k = k + 1;
                }
                return Lookup::Missing;
            }
            i = i + 1;
        }
        Lookup::Unknown
    }
}

} // verus!
