//! The shared multi-field text-entry widget: focus, per-field error, and
//! value buffering. The widget holds no domain knowledge — upper-casing,
//! validation, and submission belong to the owning screen.

use vstd::prelude::*;

verus! {

/// A single field within a [`Form`].
#[derive(Debug, PartialEq)]
pub struct FormField {
    /// Display label shown beside the input.
    pub label: String,
    /// Current text value.
    pub value: String,
    /// Validation error message, if any.
    pub error: Option<String>,
    /// Whether the field must be non-empty on submit.
    pub required: bool,
}

impl FormField {
    /// Creates a new, empty form field.
    pub fn new(label: &str, required: bool) -> (r: FormField)
        ensures
            r.label@ == label@,
            r.value@ == Seq::<char>::empty(),
            r.error is None,
            r.required == required,
    {
        FormField { label: String::from_str(label), value: String::new(), error: None, required }
    }
}

/// A multi-field text form with focus management.
#[derive(Debug, PartialEq)]
pub struct Form {
    pub fields: Vec<FormField>,
    pub focus: usize,
}

impl Form {
    /// The focus always rests on an existing field, or on 0 for an empty
    /// form.
    pub open spec fn wf(self) -> bool {
        if self.fields@.len() == 0 {
            self.focus == 0
        } else {
            self.focus < self.fields@.len()
        }
    }

    /// The form's fields.
    pub open spec fn spec_fields(self) -> Seq<FormField> {
        self.fields@
    }

    /// The focused field index.
    pub open spec fn spec_focus(self) -> int {
        self.focus as int
    }

    /// The value of the field at `i`, or the empty sequence out of bounds.
    pub open spec fn spec_value(self, i: int) -> Seq<char> {
        if 0 <= i < self.fields@.len() {
            self.fields@[i].value@
        } else {
            Seq::<char>::empty()
        }
    }

    /// All fields except the one at `i` are unchanged between two forms.
    pub open spec fn same_but(pre: Form, post: Form, i: int) -> bool {
        &&& post.fields@.len() == pre.fields@.len()
        &&& post.focus == pre.focus
        &&& forall|k: int|
            0 <= k < pre.fields@.len() && k != i ==> post.fields@[k] == #[trigger] pre.fields@[k]
    }

    /// Creates a new form. Focus starts on the first field.
    pub fn new(fields: Vec<FormField>) -> (r: Form)
        ensures
            r.spec_fields() == fields@,
            r.spec_focus() == 0,
            r.wf(),
    {
        Form { fields, focus: 0 }
    }

    /// Returns the index of the currently focused field.
    pub fn focus(&self) -> (r: usize)
        ensures
            r == self.spec_focus(),
    {
        self.focus
    }

    /// Moves focus to the next field, wrapping around. A no-op on an empty
    /// form.
    pub fn focus_next(&mut self)
        requires
            old(self).wf(),
        ensures
            final(self).wf(),
            final(self).spec_fields() == old(self).spec_fields(),
            old(self).spec_fields().len() == 0 ==> final(self).spec_focus() == 0,
            old(self).spec_fields().len() > 0 ==> final(self).spec_focus() == (old(self).spec_focus() + 1) % (old(self).spec_fields().len() as int),
    {
        if self.fields.len() == 0 {
            return ;
        }
        proof {
            if self.focus + 1 < self.fields@.len() {
                vstd::arithmetic::div_mod::lemma_small_mod(
                    (self.focus + 1) as nat,
                    self.fields@.len() as nat,
                );
            }
        }
        self.focus = (self.focus + 1) % self.fields.len();
    }

    /// Moves focus to the previous field, wrapping around. A no-op on an
    /// empty form.
    pub fn focus_prev(&mut self)
        requires
            old(self).wf(),
        ensures
            final(self).wf(),
            final(self).spec_fields() == old(self).spec_fields(),
            old(self).spec_fields().len() == 0 ==> final(self).spec_focus() == 0,
            old(self).spec_fields().len() > 0 ==> final(self).spec_focus() == (old(self).spec_focus() + old(self).spec_fields().len() - 1) % (old(self).spec_fields().len() as int),
    {
        if self.fields.len() == 0 {
            return ;
        }
        let n = self.fields.len();
        let next = if self.focus == 0 {
            n - 1
        } else {
            self.focus - 1
        };
        proof {
            vstd::arithmetic::div_mod::lemma_small_mod(next as nat, n as nat);
            vstd::arithmetic::div_mod::lemma_mod_add_multiples_vanish(next as int, n as int);
        }
        self.focus = next;
    }

    /// Sets the focused field. Out-of-bounds indices are ignored.
    pub fn set_focus(&mut self, i: usize)
        requires
            old(self).wf(),
        ensures
            final(self).wf(),
            final(self).spec_fields() == old(self).spec_fields(),
            i < old(self).spec_fields().len() ==> final(self).spec_focus() == i,
            i >= old(self).spec_fields().len() ==> final(self).spec_focus() == old(self).spec_focus(),
    {
        if i < self.fields.len() {
            self.focus = i;
        }
    }

    /// Appends a character to the focused field. A no-op on an empty form.
    pub fn insert_char(&mut self, ch: char)
        requires
            old(self).wf(),
        ensures
            final(self).wf(),
            Form::same_but(*old(self), *final(self), old(self).spec_focus()),
            old(self).spec_fields().len() > 0 ==> {
                let i = old(self).spec_focus();
                &&& final(self).spec_fields()[i].value@ == old(self).spec_fields()[i].value@.push(
                    ch,
                )
                &&& final(self).spec_fields()[i].label == old(self).spec_fields()[i].label
                &&& final(self).spec_fields()[i].error == old(self).spec_fields()[i].error
                &&& final(self).spec_fields()[i].required == old(self).spec_fields()[i].required
            },
    {
        if self.fields.len() == 0 {
            return ;
        }
        let i = self.focus;
        let mut f = self.fields.remove(i);
        crate::text::push_char(&mut f.value, ch);
        self.fields.insert(i, f);
        proof {
            assert(final(self).fields@ =~= old(self).fields@.update(
                i as int,
                final(self).fields@[i as int],
            ));
        }
    }

    /// Deletes the last character of the focused field. A no-op on an
    /// empty form or an empty value.
    pub fn delete_char(&mut self)
        requires
            old(self).wf(),
        ensures
            final(self).wf(),
            Form::same_but(*old(self), *final(self), old(self).spec_focus()),
            old(self).spec_fields().len() > 0 ==> {
                let i = old(self).spec_focus();
                &&& final(self).spec_fields()[i].value@ == spec_drop_last(
                    old(self).spec_fields()[i].value@,
                )
                &&& final(self).spec_fields()[i].label == old(self).spec_fields()[i].label
                &&& final(self).spec_fields()[i].error == old(self).spec_fields()[i].error
                &&& final(self).spec_fields()[i].required == old(self).spec_fields()[i].required
            },
    {
        if self.fields.len() == 0 {
            return ;
        }
        let i = self.focus;
        let mut f = self.fields.remove(i);
        f.value = pop_last(f.value);
        self.fields.insert(i, f);
        proof {
            assert(final(self).fields@ =~= old(self).fields@.update(
                i as int,
                final(self).fields@[i as int],
            ));
        }
    }

    /// Sets an error message on the field at `index`. Out-of-bounds
    /// indices are ignored.
    pub fn set_error(&mut self, index: usize, error: String)
        requires
            old(self).wf(),
        ensures
            final(self).wf(),
            Form::same_but(*old(self), *final(self), index as int),
            index < old(self).spec_fields().len() ==> {
                &&& final(self).spec_fields()[index as int].error == Some(error)
                &&& final(self).spec_fields()[index as int].label == old(self).spec_fields()[
                    index as int
                ].label
                &&& final(self).spec_fields()[index as int].value == old(self).spec_fields()[
                    index as int
                ].value
                &&& final(self).spec_fields()[index as int].required == old(self).spec_fields()[
                    index as int
                ].required
            },
    {
        if index < self.fields.len() {
            let mut f = self.fields.remove(index);
            f.error = Some(error);
            self.fields.insert(index, f);
            proof {
                assert(final(self).fields@ =~= old(self).fields@.update(
                    index as int,
                    final(self).fields@[index as int],
                ));
            }
        }
    }

    /// Clears all field errors.
    pub fn clear_errors(&mut self)
        requires
            old(self).wf(),
        ensures
            final(self).wf(),
            final(self).spec_fields().len() == old(self).spec_fields().len(),
            final(self).spec_focus() == old(self).spec_focus(),
            forall|k: int|
                0 <= k < old(self).spec_fields().len() ==> {
                    &&& (#[trigger] final(self).spec_fields()[k]).error is None
                    &&& final(self).spec_fields()[k].label == old(self).spec_fields()[k].label
                    &&& final(self).spec_fields()[k].value == old(self).spec_fields()[k].value
                    &&& final(self).spec_fields()[k].required == old(self).spec_fields()[
                        k
                    ].required
                },
    {
        let n = self.fields.len();
        let mut i: usize = 0;
        while i < n
            invariant
                i <= n,
                n == self.fields@.len(),
                self.wf(),
                self.focus == old(self).focus,
                forall|k: int|
                    0 <= k < i ==> {
                        &&& (#[trigger] self.fields@[k]).error is None
                        &&& self.fields@[k].label == old(self).fields@[k].label
                        &&& self.fields@[k].value == old(self).fields@[k].value
                        &&& self.fields@[k].required == old(self).fields@[k].required
                    },
                forall|k: int| i <= k < n ==> #[trigger] self.fields@[k] == old(self).fields@[k],
            decreases n - i,
        {
            let mut f = self.fields.remove(i);
            f.error = None;
            self.fields.insert(i, f);
            i = i + 1;
        }
    }

    /// Returns `true` if any field has an error set.
    pub fn has_errors(&self) -> (r: bool)
        ensures
            r == exists|k: int|
                0 <= k < self.spec_fields().len() && (#[trigger] self.spec_fields()[k]).error
                    is Some,
    {
        let mut i: usize = 0;
        while i < self.fields.len()
            invariant
                i <= self.fields@.len(),
                forall|k: int| 0 <= k < i ==> (#[trigger] self.fields@[k]).error is None,
            decreases self.fields@.len() - i,
        {
            if self.fields[i].error.is_some() {
                return true;
            }
            i = i + 1;
        }
        false
    }

    /// Returns the value of the field at `index`, or an empty string out
    /// of bounds.
    pub fn value(&self, index: usize) -> (r: &str)
        ensures
            r@ == self.spec_value(index as int),
    {
        if index < self.fields.len() {
            self.fields[index].value.as_str()
        } else {
            proof {
                reveal_strlit("");
                assert(""@ =~= Seq::<char>::empty());
            }
            ""
        }
    }

    /// Returns all field values.
    pub fn values(&self) -> (r: Vec<&str>)
        ensures
            r@.len() == self.spec_fields().len(),
            forall|k: int| 0 <= k < r@.len() ==> (#[trigger] r@[k])@ == self.spec_fields()[k].value@,
    {
        let mut r: Vec<&str> = Vec::new();
        let mut i: usize = 0;
        while i < self.fields.len()
            invariant
                i <= self.fields@.len(),
                r@.len() == i,
                forall|k: int| 0 <= k < i ==> (#[trigger] r@[k])@ == self.fields@[k].value@,
            decreases self.fields@.len() - i,
        {
            r.push(self.fields[i].value.as_str());
            i = i + 1;
        }
        r
    }

    /// Sets the value of the field at `index`. Out-of-bounds indices are
    /// ignored.
    pub fn set_value(&mut self, index: usize, value: &str)
        requires
            old(self).wf(),
        ensures
            final(self).wf(),
            Form::same_but(*old(self), *final(self), index as int),
            index < old(self).spec_fields().len() ==> {
                &&& final(self).spec_fields()[index as int].value@ == value@
                &&& final(self).spec_fields()[index as int].label == old(self).spec_fields()[
                    index as int
                ].label
                &&& final(self).spec_fields()[index as int].error == old(self).spec_fields()[
                    index as int
                ].error
                &&& final(self).spec_fields()[index as int].required == old(self).spec_fields()[
                    index as int
                ].required
            },
    {
        if index < self.fields.len() {
            let mut f = self.fields.remove(index);
            f.value = String::from_str(value);
            self.fields.insert(index, f);
            proof {
                assert(final(self).fields@ =~= old(self).fields@.update(
                    index as int,
                    final(self).fields@[index as int],
                ));
            }
        }
    }

    /// Clears the value of the field at `index`.
    pub fn clear_value(&mut self, index: usize)
        requires
            old(self).wf(),
        ensures
            final(self).wf(),
            Form::same_but(*old(self), *final(self), index as int),
            index < old(self).spec_fields().len() ==> {
                &&& final(self).spec_fields()[index as int].value@ == Seq::<char>::empty()
                &&& final(self).spec_fields()[index as int].label == old(self).spec_fields()[
                    index as int
                ].label
                &&& final(self).spec_fields()[index as int].error == old(self).spec_fields()[
                    index as int
                ].error
                &&& final(self).spec_fields()[index as int].required == old(self).spec_fields()[
                    index as int
                ].required
            },
    {
        self.set_value(index, "");
        proof {
            reveal_strlit("");
            assert(""@ =~= Seq::<char>::empty());
        }
    }

    /// Resets all field values and errors, and moves focus to the first
    /// field.
    pub fn reset(&mut self)
        requires
            old(self).wf(),
        ensures
            final(self).wf(),
            final(self).spec_focus() == 0,
            final(self).spec_fields().len() == old(self).spec_fields().len(),
            forall|k: int|
                0 <= k < old(self).spec_fields().len() ==> {
                    &&& (#[trigger] final(self).spec_fields()[k]).value@ == Seq::<char>::empty()
                    &&& final(self).spec_fields()[k].error is None
                    &&& final(self).spec_fields()[k].label == old(self).spec_fields()[k].label
                    &&& final(self).spec_fields()[k].required == old(self).spec_fields()[
                        k
                    ].required
                },
    {
        let n = self.fields.len();
        let mut i: usize = 0;
        while i < n
            invariant
                i <= n,
                n == self.fields@.len(),
                self.wf(),
                forall|k: int|
                    0 <= k < i ==> {
                        &&& (#[trigger] self.fields@[k]).value@ == Seq::<char>::empty()
                        &&& self.fields@[k].error is None
                        &&& self.fields@[k].label == old(self).fields@[k].label
                        &&& self.fields@[k].required == old(self).fields@[k].required
                    },
                forall|k: int| i <= k < n ==> #[trigger] self.fields@[k] == old(self).fields@[k],
            decreases n - i,
        {
            let mut f = self.fields.remove(i);
            f.value = String::new();
            f.error = None;
            self.fields.insert(i, f);
            i = i + 1;
        }
        self.focus = 0;
    }

    /// Returns the fields for rendering.
    pub fn fields(&self) -> (r: &Vec<FormField>)
        ensures
            r@ == self.spec_fields(),
    {
        &self.fields
    }
}

/// A sequence without its last element; the empty sequence stays empty.
pub open spec fn spec_drop_last(s: Seq<char>) -> Seq<char> {
    if s.len() == 0 {
        s
    } else {
        s.drop_last()
    }
}

/// Removes the last character of a string, if any.
fn pop_last(s: String) -> (r: String)
    ensures
        r@ == spec_drop_last(s@),
{
    let v = crate::text::str_to_chars(s.as_str());
    let mut out: Vec<char> = Vec::new();
    let n = v.len();
    if n == 0 {
        return String::new();
    }
    let mut i: usize = 0;
    while i < n - 1
        invariant
            n == v@.len(),
            n >= 1,
            v@ == s@,
            i <= n - 1,
            out@ =~= s@.subrange(0, i as int),
        decreases n - i,
    {
        out.push(v[i]);
        i = i + 1;
        proof {
            assert(out@ =~= s@.subrange(0, i as int));
        }
    }
    proof {
        assert(out@ =~= spec_drop_last(s@));
    }
    crate::text::chars_to_string(&out)
}

} // verus!
