//! The canonical record and its mathematical view. A record always carries
//! its primary key (a record that could not be given a doi never enters a
//! table); every other field is optional until the mandatory-field check.

use vstd::prelude::*;
use crate::date::Date;

verus! {

/// A canonical bibliographic record.
#[derive(Debug)]
pub struct Record {
    pub doi: String,
    pub date: Option<Date>,
    pub title: Option<String>,
    pub abstract_text: Option<String>,
    pub authors: Option<Vec<String>>,
    pub author_keywords: Option<Vec<String>>,
    pub wos_keywords: Option<Vec<String>>,
    pub category: Option<Vec<String>>,
    pub areas: Option<Vec<String>>,
    pub journal: Option<String>,
    pub text: Option<String>,
    pub references: Option<Vec<String>>,
}

/// The mathematical value of a record: every string a character sequence.
#[verifier::ext_equal]
pub ghost struct RecView {
    pub doi: Seq<char>,
    pub date: Option<Date>,
    pub title: Option<Seq<char>>,
    pub abstract_text: Option<Seq<char>>,
    pub authors: Option<Seq<Seq<char>>>,
    pub author_keywords: Option<Seq<Seq<char>>>,
    pub wos_keywords: Option<Seq<Seq<char>>>,
    pub category: Option<Seq<Seq<char>>>,
    pub areas: Option<Seq<Seq<char>>>,
    pub journal: Option<Seq<char>>,
    pub text: Option<Seq<char>>,
    pub references: Option<Seq<Seq<char>>>,
}

/// The view of an optional string.
pub open spec fn opt_str_view(o: Option<String>) -> Option<Seq<char>> {
    match o {
        Some(s) => Some(s@),
        None => None,
    }
}

/// The view of an optional string list.
pub open spec fn opt_list_view(o: Option<Vec<String>>) -> Option<Seq<Seq<char>>> {
    match o {
        Some(v) => Some(v.deep_view()),
        None => None,
    }
}

impl View for Record {
    type V = RecView;

    open spec fn view(&self) -> RecView {
        RecView {
            doi: self.doi@,
            date: self.date,
            title: opt_str_view(self.title),
            abstract_text: opt_str_view(self.abstract_text),
            authors: opt_list_view(self.authors),
            author_keywords: opt_list_view(self.author_keywords),
            wos_keywords: opt_list_view(self.wos_keywords),
            category: opt_list_view(self.category),
            areas: opt_list_view(self.areas),
            journal: opt_str_view(self.journal),
            text: opt_str_view(self.text),
            references: opt_list_view(self.references),
        }
    }
}

impl DeepView for Record {
    type V = RecView;

    open spec fn deep_view(&self) -> RecView {
        self.view()
    }
}

/// Whether a record carries every mandatory field: doi is inherent, and
/// authors, date, title, references, and the derived text must be present.
pub open spec fn complete(r: RecView) -> bool {
    r.date is Some && r.authors is Some && r.title is Some && r.references is Some
        && r.text is Some
}

/// The mandatory-field drop over a table, order preserved.
pub open spec fn drop_spec(t: Seq<RecView>) -> Seq<RecView>
    decreases t.len(),
{
    if t.len() == 0 {
        Seq::empty()
    } else {
        let rest = drop_spec(t.drop_last());
        if complete(t.last()) {
            rest.push(t.last())
        } else {
            rest
        }
    }
}

/// Copies an optional string; the copy has the same characters.
pub fn clone_opt_string(o: &Option<String>) -> (r: Option<String>)
    ensures
        opt_str_view(r) == opt_str_view(*o),
{
    match o {
        Some(s) => Some(s.clone()),
        None => None,
    }
}

/// Copies a string list; the copy has the same character sequences.
pub fn clone_strings(v: &Vec<String>) -> (r: Vec<String>)
    ensures
        r.deep_view() == v.deep_view(),
        r@.len() == v@.len(),
{
    let mut out: Vec<String> = Vec::new();
    let mut i: usize = 0;
    while i < v.len()
        invariant
            i <= v@.len(),
            out@.len() == i,
            forall|k: int| 0 <= k < i ==> out@[k]@ == v@[k]@,
        decreases v.len() - i,
    {
        out.push(v[i].clone());
        i = i + 1;
    }
    proof {
        assert(out.deep_view() =~~= v.deep_view());
    }
    out
}

/// Copies an optional string list.
pub fn clone_opt_strings(o: &Option<Vec<String>>) -> (r: Option<Vec<String>>)
    ensures
        opt_list_view(r) == opt_list_view(*o),
{
    match o {
        Some(v) => {
            let c = clone_strings(v);
            proof {
                assert(opt_list_view(Some(c)) =~~= opt_list_view(*o));
            }
            Some(c)
        },
        None => None,
    }
}

impl Record {
    /// Copies a record; the copy has the same view.
    pub fn duplicate(&self) -> (r: Record)
        ensures
            r@ == self@,
    {
        let r = Record {
            doi: self.doi.clone(),
            date: self.date,
            title: clone_opt_string(&self.title),
            abstract_text: clone_opt_string(&self.abstract_text),
            authors: clone_opt_strings(&self.authors),
            author_keywords: clone_opt_strings(&self.author_keywords),
            wos_keywords: clone_opt_strings(&self.wos_keywords),
            category: clone_opt_strings(&self.category),
            areas: clone_opt_strings(&self.areas),
            journal: clone_opt_string(&self.journal),
            text: clone_opt_string(&self.text),
            references: clone_opt_strings(&self.references),
        };
        proof {
            assert(r@ =~~= self@);
        }
        r
    }

    /// Whether the record passes the mandatory-field check.
    pub fn is_complete(&self) -> (r: bool)
        ensures
            r == complete(self@),
    {
        self.date.is_some() && self.authors.is_some() && self.title.is_some()
            && self.references.is_some() && self.text.is_some()
    }
}

/// Removes every record that is missing a mandatory field (doi, authors,
/// date, title, references, or the derived text), keeping the rest in order.
pub fn drop_nulls(records: Vec<Record>) -> (r: Vec<Record>)
    ensures
        r.deep_view() == drop_spec(records.deep_view()),
        r@.len() <= records@.len(),
{
    let ghost all = records.deep_view();
    let mut out: Vec<Record> = Vec::new();
    let mut i: usize = 0;
    while i < records.len()
        invariant
            i <= records@.len(),
            all == records.deep_view(),
            out@.len() <= i,
            out.deep_view() == drop_spec(all.take(i as int)),
        decreases records.len() - i,
    {
        let ghost pre = out.deep_view();
        if records[i].is_complete() {
            let c = records[i].duplicate();
            out.push(c);
            proof {
                assert(out.deep_view() =~~= pre.push(all[i as int]));
            }
        }
        proof {
            assert(all.take(i + 1 as int).drop_last() =~= all.take(i as int));
            assert(all.take(i + 1 as int).last() == all[i as int]);
        }
        i = i + 1;
    }
    proof {
        assert(all.take(all.len() as int) =~= all);
    }
    out
}

/// The drop pass never grows a table.
pub proof fn lemma_drop_spec_len(t: Seq<RecView>)
    ensures
        drop_spec(t).len() <= t.len(),
    decreases t.len(),
{
    if t.len() > 0 {
        lemma_drop_spec_len(t.drop_last());
    }
}

/// A table of complete records passes the drop unchanged.
pub proof fn lemma_drop_spec_complete(t: Seq<RecView>)
    requires
        forall|i: int| 0 <= i < t.len() ==> complete(#[trigger] t[i]),
    ensures
        drop_spec(t) == t,
    decreases t.len(),
{
    if t.len() > 0 {
        assert forall|i: int| 0 <= i < t.drop_last().len() implies complete(
            #[trigger] t.drop_last()[i],
        ) by {
            assert(complete(t[i]));
        }
        lemma_drop_spec_complete(t.drop_last());
        assert(complete(t[t.len() - 1]));
        assert(drop_spec(t) =~= t);
    }
}

/// A drop pass that removes nothing leaves the table unchanged, and then
/// every record of the table is complete.
pub proof fn lemma_drop_spec_all_kept(t: Seq<RecView>)
    requires
        drop_spec(t).len() == t.len(),
    ensures
        drop_spec(t) == t,
        forall|i: int| 0 <= i < t.len() ==> complete(#[trigger] t[i]),
    decreases t.len(),
{
    if t.len() > 0 {
        lemma_drop_spec_len(t.drop_last());
        if !complete(t.last()) {
            assert(false);
        }
        lemma_drop_spec_all_kept(t.drop_last());
        assert(drop_spec(t) =~= t);
        assert forall|i: int| 0 <= i < t.len() implies complete(#[trigger] t[i]) by {
            if i < t.len() - 1 {
                assert(complete(t.drop_last()[i]));
            }
        }
    }
}

} // verus!
