//! The redirect that a customer's browser must follow to complete a payment.

use vstd::prelude::*;
use crate::enums::Method;

verus! {

/// The fields of a redirect form, in the order in which they were added.
/// A field added later under a name that is already present takes the place
/// of the earlier one when the form is read by name. Two forms are equal when
/// they hold the same fields in the same order.
#[derive(Clone, Debug, PartialEq, Eq)]
pub struct FormFields {
    entries: Vec<(String, String)>,
}

/// The map that a list of name and value pairs makes, the last pair of a name winning.
pub open spec fn fields_map(entries: Seq<(Seq<char>, Seq<char>)>) -> Map<Seq<char>, Seq<char>>
    decreases entries.len(),
{
    if entries.len() == 0 {
        Map::empty()
    } else {
        fields_map(entries.drop_last()).insert(entries.last().0, entries.last().1)
    }
}

/// The views of a list of pairs of strings.
pub open spec fn pairs_view(entries: Seq<(String, String)>) -> Seq<(Seq<char>, Seq<char>)> {
    Seq::new(entries.len(), |i: int| (entries[i].0@, entries[i].1@))
}

impl FormFields {
    /// The pairs in the order in which they were added.
    pub closed spec fn pairs(&self) -> Seq<(Seq<char>, Seq<char>)> {
        pairs_view(self.entries@)
    }

    /// The value under each name.
    pub open spec fn view(&self) -> Map<Seq<char>, Seq<char>> {
        fields_map(self.pairs())
    }

    /// The form without fields.
    pub fn new() -> (r: Self)
        ensures
            r.pairs() == Seq::<(Seq<char>, Seq<char>)>::empty(),
            r@ == Map::<Seq<char>, Seq<char>>::empty(),
    {
        let r = FormFields { entries: Vec::new() };
        proof {
            assert(r.pairs() =~= Seq::<(Seq<char>, Seq<char>)>::empty());
        }
        r
    }

    /// Adds a field; a field of the same name added before is replaced.
    pub fn insert(&mut self, name: String, value: String)
        ensures
            final(self).pairs() == old(self).pairs().push((name@, value@)),
            final(self)@ == old(self)@.insert(name@, value@),
    {
        let ghost before = self.pairs();
        self.entries.push((name, value));
        proof {
            assert(self.pairs() =~= before.push((name@, value@)));
            assert(self.pairs().drop_last() =~= before);
        }
    }

    /// The value of the field called `name`, if there is one.
    pub fn get(&self, name: &str) -> (r: Option<&String>)
        ensures
            r is Some <==> self@.contains_key(name@),
            r matches Some(v) ==> v@ == self@[name@],
    {
        let wanted = String::from_str(name);
        let mut i: usize = self.entries.len();
        proof {
            assert(self.pairs().subrange(0, i as int) =~= self.pairs());
        }
        while i > 0
            invariant
                i <= self.entries.len(),
                wanted@ == name@,
                fields_map(self.pairs()).contains_key(name@) <==> fields_map(
                    self.pairs().subrange(0, i as int),
                ).contains_key(name@),
                fields_map(self.pairs()).contains_key(name@) ==> fields_map(self.pairs())[name@]
                    == fields_map(self.pairs().subrange(0, i as int))[name@],
            decreases i,
        {
            i -= 1;
            proof {
                let upto = self.pairs().subrange(0, i + 1);
                assert(upto.drop_last() =~= self.pairs().subrange(0, i as int));
                assert(upto.last() == self.pairs()[i as int]);
                assert(self.pairs()[i as int] == (self.entries@[i as int].0@, self.entries@[i as int].1@));
            }
            if self.entries[i].0 == wanted {
                return Some(&self.entries[i].1);
            }
        }
        proof {
            assert(self.pairs().subrange(0, 0) =~= Seq::<(Seq<char>, Seq<char>)>::empty());
        }
        None
    }

    /// The number of fields that were added.
    pub fn entry_count(&self) -> (r: usize)
        ensures
            r == self.pairs().len(),
    {
        self.entries.len()
    }

    /// The name and the value of the field that was added at position `index`.
    pub fn entry(&self, index: usize) -> (r: (&String, &String))
        requires
            index < self.pairs().len(),
        ensures
            r.0@ == self.pairs()[index as int].0,
            r.1@ == self.pairs()[index as int].1,
    {
        (&self.entries[index].0, &self.entries[index].1)
    }
}

/// What the browser of the customer is asked to do.
#[derive(Clone, Debug, PartialEq, Eq)]
pub enum RedirectForm {
    /// Submit `form_fields` to `endpoint` with `method`.
    Form { endpoint: String, method: Method, form_fields: FormFields },
    /// Go to `endpoint` with a GET request.
    Redirect { endpoint: String },
}

impl RedirectForm {
    /// Whether this is a form for `endpoint` and `method` with the fields `fields`.
    pub open spec fn is_form(
        &self,
        endpoint: Seq<char>,
        method: Method,
        fields: Seq<(Seq<char>, Seq<char>)>,
    ) -> bool {
        &&& *self matches RedirectForm::Form { endpoint: e, method: m, form_fields: f }
        &&& e@ == endpoint
        &&& m == method
        &&& f.pairs() == fields
    }

    /// Whether this is a GET redirect to `endpoint`.
    pub open spec fn is_get_redirect(&self, endpoint: Seq<char>) -> bool {
        *self matches RedirectForm::Redirect { endpoint: e } && e@ == endpoint
    }

    /// Whether this is what a bare URL with the canonical text `endpoint`
    /// asks for when it is to be followed with `method`: a GET redirect, or
    /// for any other method a form without fields.
    pub open spec fn is_bare_url_redirect(&self, endpoint: Seq<char>, method: Method) -> bool {
        if method == Method::Get {
            self.is_get_redirect(endpoint)
        } else {
            self.is_form(endpoint, method, Seq::<(Seq<char>, Seq<char>)>::empty())
        }
    }
}

/// `url::Url`, a parsed absolute URL; nothing is known of it but what the
/// names below say.
#[verifier::external_type_specification]
#[verifier::external_body]
pub struct ExUrl(url::Url);

/// The URL that `text` spells, when `text` is an absolute URL.
pub uninterp spec fn url_parsed(text: Seq<char>) -> Option<url::Url>;

/// The canonical text of a URL: its serialization.
pub uninterp spec fn url_written(url: url::Url) -> Seq<char>;

/// Calls `url::Url::parse`. The contract names the result `url_parsed`.
#[verifier::external_body]
pub(crate) fn parse_url(text: &str) -> (r: Option<url::Url>)
    ensures
        r == url_parsed(text@),
{
    url::Url::parse(text).ok()
}

/// Writes a `url::Url` with its `Display`, which gives its serialization.
/// The contract names the result `url_written`.
#[verifier::external_body]
pub(crate) fn url_to_string(url: &url::Url) -> (r: String)
    ensures
        r@ == url_written(*url),
{
    url.to_string()
}

/// The canonical text of the URL that `text` spells, or `None` when `text`
/// is not an absolute URL.
pub open spec fn url_normal_form(text: Seq<char>) -> Option<Seq<char>> {
    match url_parsed(text) {
        Some(url) => Some(url_written(url)),
        None => None,
    }
}

/// The canonical text of the URL that `text` spells, if it spells one.
pub fn normalize_url(text: &str) -> (r: Option<String>)
    ensures
        r is Some <==> url_normal_form(text@) is Some,
        r matches Some(s) ==> url_normal_form(text@) == Some(s@),
{
    let url = parse_url(text)?;
    Some(url_to_string(&url))
}

/// The redirect to a bare URL, to be followed with `method`: a GET redirect
/// to the URL, or for any other method a form without fields. `None` when
/// `url` is not an absolute URL.
pub fn redirect_form_from_url(url: &str, method: Method) -> (r: Option<RedirectForm>)
    ensures
        r is Some <==> url_normal_form(url@) is Some,
        r matches Some(form) ==> form.is_bare_url_redirect(url_normal_form(url@)->0, method),
{
    let endpoint = normalize_url(url)?;
    match method {
        Method::Get => Some(RedirectForm::Redirect { endpoint }),
        _ => Some(RedirectForm::Form { endpoint, method, form_fields: FormFields::new() }),
    }
}

} // verus!
