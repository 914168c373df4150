use vstd::prelude::*;
use vstd::string::StringExecFns;

use crate::field::Field;
use crate::fields::{fields_ok, fields_text, Fields};
use crate::text::lines_text;
use crate::formatter::{at_start, ends_line, ind, lemma_ind_concat, lemma_ind_ends, Formatter};
use crate::ty::Type;

verus! {

/// One variant of an enum: a name, its fields, and annotation lines.
pub struct Variant {
    /// The variant's name.
    pub name: String,
    /// The variant's fields.
    pub fields: Fields,
    /// Annotation lines written above the variant.
    pub annotations: Vec<String>,
}

/// The text written before the variant's fields: annotation lines, then
/// the name.
pub open spec fn variant_head_text(v: Variant) -> Seq<char> {
    lines_text(v.annotations.deep_view(), v.annotations.deep_view().len() as int) + v.name@
}

/// The rendered variant, its trailing comma ending the line.
pub open spec fn variant_text(v: Variant) -> Seq<char> {
    variant_head_text(v) + fields_text(v.fields, ends_line(variant_head_text(v), true))
        + ",\n"@
}

impl Variant {
    /// Creates a variant with the given name.
    pub fn new(name: &str) -> (r: Variant)
        ensures
            r.name@ == name@,
            r.fields is Empty,
            r.annotations@.len() == 0,
    {
        Variant { name: name.to_owned(), fields: Fields::Empty, annotations: Vec::new() }
    }

    /// Gets the variant's name.
    pub fn name(&self) -> (r: &str)
        ensures
            r@ == self.name@,
    {
        self.name.as_str()
    }

    /// Sets the variant's name.
    pub fn set_name(&mut self, name: &str) -> (r: &mut Variant)
        ensures
            r.name@ == name@,
            r.fields == old(self).fields,
            r.annotations == old(self).annotations,
            *final(self) == *final(r),
    {
        self.name = name.to_owned();
        self
    }

    /// Sets the variant's name.
    pub fn with_name(self, name: &str) -> (r: Variant)
        ensures
            r.name@ == name@,
            r.fields == self.fields,
            r.annotations == self.annotations,
    {
        let mut s = self;
        s.name = name.to_owned();
        s
    }

    /// Gets the variant's name mutably.
    pub fn name_mut(&mut self) -> (r: &mut String)
        ensures
            *r == old(self).name,
            final(self).name == *final(r),
            final(self).fields == old(self).fields,
            final(self).annotations == old(self).annotations,
    {
        &mut self.name
    }

    /// Gets the variant's fields.
    pub fn fields(&self) -> (r: &Fields)
        ensures
            *r == self.fields,
    {
        &self.fields
    }

    /// Sets the variant's fields.
    pub fn set_fields(&mut self, fields: Fields) -> (r: &mut Variant)
        ensures
            r.fields == fields,
            r.name == old(self).name,
            r.annotations == old(self).annotations,
            *final(self) == *final(r),
    {
        self.fields = fields;
        self
    }

    /// Sets the variant's fields.
    pub fn with_fields(self, fields: Fields) -> (r: Variant)
        ensures
            r.fields == fields,
            r.name == self.name,
            r.annotations == self.annotations,
    {
        let mut s = self;
        s.fields = fields;
        s
    }

    /// Gets the variant's fields mutably.
    pub fn fields_mut(&mut self) -> (r: &mut Fields)
        ensures
            *r == old(self).fields,
            final(self).fields == *final(r),
            final(self).name == old(self).name,
            final(self).annotations == old(self).annotations,
    {
        &mut self.fields
    }

    /// Gets the variant's annotations.
    pub fn annotations(&self) -> (r: &Vec<String>)
        ensures
            *r == self.annotations,
    {
        &self.annotations
    }

    /// Sets the variant's annotations.
    pub fn set_annotations(&mut self, annotations: Vec<String>) -> (r: &mut Variant)
        ensures
            r.annotations == annotations,
            r.name == old(self).name,
            r.fields == old(self).fields,
            *final(self) == *final(r),
    {
        self.annotations = annotations;
        self
    }

    /// Sets the variant's annotations.
    pub fn with_annotations(self, annotations: Vec<String>) -> (r: Variant)
        ensures
            r.annotations == annotations,
            r.name == self.name,
            r.fields == self.fields,
    {
        let mut s = self;
        s.annotations = annotations;
        s
    }

    /// Gets the variant's annotations mutably.
    pub fn annotations_mut(&mut self) -> (r: &mut Vec<String>)
        ensures
            *r == old(self).annotations,
            final(self).annotations == *final(r),
            final(self).name == old(self).name,
            final(self).fields == old(self).fields,
    {
        &mut self.annotations
    }

    /// Pushes an annotation line onto the variant.
    pub fn push_annotation(&mut self, annotation: &str) -> (r: &mut Variant)
        ensures
            r.annotations.deep_view() == old(self).annotations.deep_view().push(annotation@),
            r.name == old(self).name,
            r.fields == old(self).fields,
            *final(self) == *final(r),
    {
        self.annotations.push(annotation.to_owned());
        proof {
            assert(self.annotations.deep_view() =~= old(self).annotations.deep_view().push(
                annotation@,
            ));
        }
        self
    }

    /// Pushes an annotation line onto the variant.
    pub fn with_annotation(self, annotation: &str) -> (r: Variant)
        ensures
            r.annotations.deep_view() == self.annotations.deep_view().push(annotation@),
            r.name == self.name,
            r.fields == self.fields,
    {
        let mut s = self;
        s.annotations.push(annotation.to_owned());
        proof {
            assert(s.annotations.deep_view() =~= self.annotations.deep_view().push(annotation@));
        }
        s
    }

    /// Pushes a named field. The variant must not hold tuple fields.
    pub fn push_named_field(&mut self, name: &str, ty: Type) -> (r: &mut Variant)
        requires
            !(old(self).fields is Tuple),
        ensures
            old(self).fields is Empty ==> (r.fields matches Fields::Named(fs) && fs@.len() == 1),
            old(self).fields matches Fields::Named(pre) ==> (r.fields matches Fields::Named(fs)
                && fs@.len() == pre@.len() + 1),
            r.name == old(self).name,
            r.annotations == old(self).annotations,
            *final(self) == *final(r),
    {
        self.fields.push_named(Field::new(name, ty));
        self
    }

    /// Pushes a named field. The variant must not hold tuple fields.
    pub fn with_named_field(self, name: &str, ty: Type) -> (r: Variant)
        requires
            !(self.fields is Tuple),
        ensures
            self.fields is Empty ==> (r.fields matches Fields::Named(fs) && fs@.len() == 1),
            r.name == self.name,
            r.annotations == self.annotations,
    {
        let mut s = self;
        s.fields.push_named(Field::new(name, ty));
        s
    }

    /// Pushes a tuple field. The variant must not hold named fields.
    pub fn push_tuple_field(&mut self, ty: &str) -> (r: &mut Variant)
        requires
            !(old(self).fields is Named),
        ensures
            old(self).fields is Empty ==> (r.fields matches Fields::Tuple(ts) && ts@.len() == 1),
            old(self).fields matches Fields::Tuple(pre) ==> (r.fields matches Fields::Tuple(ts)
                && ts@.len() == pre@.len() + 1),
            r.name == old(self).name,
            r.annotations == old(self).annotations,
            *final(self) == *final(r),
    {
        self.fields.push_tuple(Type::new(ty));
        self
    }

    /// Pushes a tuple field. The variant must not hold named fields.
    pub fn with_tuple_field(self, ty: &str) -> (r: Variant)
        requires
            !(self.fields is Named),
        ensures
            self.fields is Empty ==> (r.fields matches Fields::Tuple(ts) && ts@.len() == 1),
            r.name == self.name,
            r.annotations == self.annotations,
    {
        let mut s = self;
        s.fields.push_tuple(Type::new(ty));
        s
    }

    /// Writes the variant, starting at a line start.
    pub fn fmt(&self, fmt: &mut Formatter)
        requires
            old(fmt).wf(),
            at_start(old(fmt).text()),
            fields_ok(self.fields),
        ensures
            final(fmt).wf(),
            final(fmt).depth() == old(fmt).depth(),
            final(fmt).text() == old(fmt).text() + ind(
                variant_text(*self),
                true,
                old(fmt).depth(),
            ),
    {
        let ghost orig = fmt.text();
        let ghost n = fmt.depth();
        let ghost head = variant_head_text(*self);
        let mut pre = String::new();
        let mut i: usize = 0;
        proof {
            assert(pre@ + lines_text(self.annotations.deep_view(), 0) =~= pre@);
        }
        while i < self.annotations.len()
            invariant
                i <= self.annotations@.len(),
                self.annotations.deep_view().len() == self.annotations@.len(),
                forall|j: int|
                    0 <= j < self.annotations@.len() ==> self.annotations.deep_view()[j]
                        == self.annotations@[j]@,
                pre@ == lines_text(self.annotations.deep_view(), i as int),
            decreases self.annotations@.len() - i,
        {
            pre.append(self.annotations[i].as_str());
            pre.append("\n");
            proof {
                assert(pre@ =~= lines_text(self.annotations.deep_view(), i as int + 1));
            }
            i = i + 1;
        }
        pre.append(self.name.as_str());
        proof {
            assert(pre@ == head);
        }
        fmt.write_str(pre.as_str());
        proof {
            if head.len() == 0 {
                assert(ind(head, true, n) =~= Seq::<char>::empty());
                assert(fmt.text() =~= orig);
                assert(at_start(fmt.text()) == ends_line(head, true));
            } else {
                lemma_ind_ends(head, true, n);
                assert(fmt.text().last() == ind(head, true, n).last());
                assert(at_start(fmt.text()) == ends_line(head, true));
            }
        }
        let ghost e = ends_line(head, true);
        let ghost ft = fields_text(self.fields, e);
        self.fields.fmt(fmt);
        proof {
            lemma_ind_concat(head, ft, true, n);
            assert(fmt.text() =~= orig + ind(head + ft, true, n));
            if (head + ft).len() == 0 {
                assert(fmt.text() =~= orig);
                assert(at_start(fmt.text()) == ends_line(head + ft, true));
            } else {
                lemma_ind_ends(head + ft, true, n);
                assert(fmt.text().last() == ind(head + ft, true, n).last());
                assert(at_start(fmt.text()) == ends_line(head + ft, true));
            }
        }
        fmt.write_str(",\n");
        proof {
            lemma_ind_concat(head + ft, ",\n"@, true, n);
            assert(variant_text(*self) =~= (head + ft) + ",\n"@);
            assert(fmt.text() =~= orig + ind(variant_text(*self), true, n));
        }
    }
}

} // verus!
