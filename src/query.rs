//! Canonical query strings: `name=value` parameters in a fixed order, joined by `&`.
use vstd::prelude::*;
use vstd::string::StringExecFns;
use crate::encode::{
    amp_free,
    lemma_decimal_int_amp_free,
    lemma_decimal_int_injective,
    lemma_form_encode_amp_free,
    lemma_form_encode_injective,
    decimal_int,
    decimal_nat,
    form_encode,
    push_char,
    push_decimal_i64,
    push_decimal_u64,
    push_form_encoded,
};

verus! {

/// One parameter as it stands in a query string.
pub open spec fn param(name: Seq<char>, value: Seq<char>) -> Seq<char> {
    name + seq!['='] + value
}

/// Parameters joined by `&`, in order.
pub open spec fn join_params(parts: Seq<Seq<char>>) -> Seq<char>
    decreases parts.len(),
{
    if parts.len() == 0 {
        Seq::empty()
    } else if parts.len() == 1 {
        parts[0]
    } else {
        join_params(parts.drop_last()) + seq!['&'] + parts.last()
    }
}

/// A text parameter, form-encoded.
pub open spec fn text_param(name: Seq<char>, value: Seq<char>) -> Seq<char> {
    param(name, form_encode(value))
}

/// A text parameter that stands only when present.
pub open spec fn opt_text_param(name: Seq<char>, value: Option<String>) -> Seq<Seq<char>> {
    match value {
        Some(v) => seq![text_param(name, v@)],
        None => Seq::empty(),
    }
}

/// An unsigned parameter that stands only when present.
pub open spec fn opt_nat_param(name: Seq<char>, value: Option<u64>) -> Seq<Seq<char>> {
    match value {
        Some(v) => seq![param(name, decimal_nat(v as nat))],
        None => Seq::empty(),
    }
}

/// A signed parameter that stands only when present.
pub open spec fn opt_int_param(name: Seq<char>, value: Option<i64>) -> Seq<Seq<char>> {
    match value {
        Some(v) => seq![param(name, decimal_int(v as int))],
        None => Seq::empty(),
    }
}

/// The text of an optional string, when present.
pub open spec fn opt_view(value: Option<String>) -> Option<Seq<char>> {
    match value {
        Some(v) => Some(v@),
        None => None,
    }
}

/// An optional text parameter depends on the text alone.
pub proof fn lemma_opt_text_param_by_view(name: Seq<char>, a: Option<String>, b: Option<String>)
    requires
        opt_view(a) == opt_view(b),
    ensures
        opt_text_param(name, a) == opt_text_param(name, b),
{
    match a {
        Some(x) => {
            assert(b is Some);
            assert(b->0@ == x@);
        },
        None => {},
    }
}

/// Whether no parameter holds an `&`.
pub open spec fn all_amp_free(parts: Seq<Seq<char>>) -> bool {
    forall|i: int| 0 <= i < parts.len() ==> amp_free(#[trigger] parts[i])
}

pub proof fn lemma_all_amp_free_concat(a: Seq<Seq<char>>, b: Seq<Seq<char>>)
    requires
        all_amp_free(a),
        all_amp_free(b),
    ensures
        all_amp_free(a + b),
{
    assert forall|i: int| 0 <= i < (a + b).len() implies amp_free(#[trigger] (a + b)[i]) by {
        if i < a.len() {
            assert((a + b)[i] == a[i]);
        } else {
            assert((a + b)[i] == b[i - a.len()]);
        }
    }
}

/// A parameter whose name and value hold no `&` holds none.
pub proof fn lemma_param_amp_free(name: Seq<char>, value: Seq<char>)
    requires
        amp_free(name),
        amp_free(value),
    ensures
        amp_free(param(name, value)),
{
    let p = param(name, value);
    assert forall|i: int| 0 <= i < p.len() implies p[i] != '&' by {
        if i < name.len() {
            assert(p[i] == name[i]);
        } else if i > name.len() {
            assert(p[i] == value[i - name.len() - 1]);
        }
    }
}

/// Parameters of one name with equal text have equal values.
pub proof fn lemma_param_value(name: Seq<char>, v1: Seq<char>, v2: Seq<char>)
    requires
        param(name, v1) == param(name, v2),
    ensures
        v1 == v2,
{
    let s = param(name, v1);
    assert(v1 =~= s.subrange((name.len() + 1) as int, s.len() as int));
    assert(v2 =~= param(name, v2).subrange((name.len() + 1) as int, s.len() as int));
}

pub proof fn lemma_opt_text_param_amp_free(name: Seq<char>, value: Option<String>)
    requires
        amp_free(name),
    ensures
        all_amp_free(opt_text_param(name, value)),
{
    if let Some(v) = value {
        lemma_form_encode_amp_free(v@);
        lemma_param_amp_free(name, form_encode(v@));
    }
}

pub proof fn lemma_opt_nat_param_amp_free(name: Seq<char>, value: Option<u64>)
    requires
        amp_free(name),
    ensures
        all_amp_free(opt_nat_param(name, value)),
{
    if let Some(v) = value {
        lemma_decimal_int_amp_free(v as int);
        assert(decimal_int(v as int) == decimal_nat(v as nat));
        lemma_param_amp_free(name, decimal_nat(v as nat));
    }
}

pub proof fn lemma_opt_int_param_amp_free(name: Seq<char>, value: Option<i64>)
    requires
        amp_free(name),
    ensures
        all_amp_free(opt_int_param(name, value)),
{
    if let Some(v) = value {
        lemma_decimal_int_amp_free(v as int);
        lemma_param_amp_free(name, decimal_int(v as int));
    }
}

/// Form-encoded parameters of one name are equal only for equal texts.
pub proof fn lemma_text_param_injective(name: Seq<char>, v1: Seq<char>, v2: Seq<char>)
    requires
        text_param(name, v1) == text_param(name, v2),
    ensures
        v1 == v2,
{
    lemma_param_value(name, form_encode(v1), form_encode(v2));
    lemma_form_encode_injective(v1, v2);
}

/// Decimal parameters of one name are equal only for equal numbers.
pub proof fn lemma_int_param_injective(name: Seq<char>, v1: int, v2: int)
    requires
        param(name, decimal_int(v1)) == param(name, decimal_int(v2)),
    ensures
        v1 == v2,
{
    lemma_param_value(name, decimal_int(v1), decimal_int(v2));
    lemma_decimal_int_injective(v1, v2);
}

/// Parameters that hold no `&` are told apart again after joining.
pub proof fn lemma_join_params_injective(xs: Seq<Seq<char>>, ys: Seq<Seq<char>>)
    requires
        xs.len() == ys.len(),
        all_amp_free(xs),
        all_amp_free(ys),
        join_params(xs) == join_params(ys),
    ensures
        xs == ys,
    decreases xs.len(),
{
    if xs.len() <= 1 {
        assert(xs =~= ys);
    } else {
        let s = join_params(xs);
        let j1 = join_params(xs.drop_last());
        let j2 = join_params(ys.drop_last());
        let l1 = xs.last();
        let l2 = ys.last();
        assert(s == j1 + seq!['&'] + l1);
        assert(s == j2 + seq!['&'] + l2);
        assert(amp_free(l1) && amp_free(l2));
        if l1.len() < l2.len() {
            let k = s.len() - l1.len() - 1;
            assert(s[k] == '&');
            assert(s[k] == l2[k - j2.len() - 1]);
        }
        if l2.len() < l1.len() {
            let k = s.len() - l2.len() - 1;
            assert(s[k] == '&');
            assert(s[k] == l1[k - j1.len() - 1]);
        }
        assert(l1 =~= s.subrange(s.len() - l1.len(), s.len() as int));
        assert(l2 =~= s.subrange(s.len() - l2.len(), s.len() as int));
        assert(j1 =~= s.subrange(0, j1.len() as int));
        assert(j2 =~= s.subrange(0, j2.len() as int));
        assert(all_amp_free(xs.drop_last()));
        assert(all_amp_free(ys.drop_last()));
        lemma_join_params_injective(xs.drop_last(), ys.drop_last());
        assert(xs =~= xs.drop_last().push(l1));
        assert(ys =~= ys.drop_last().push(l2));
    }
}

/// Two concatenations with equal right parts of one length have equal parts.
pub proof fn lemma_concat_split<A>(x1: Seq<A>, y1: Seq<A>, x2: Seq<A>, y2: Seq<A>)
    requires
        x1 + y1 == x2 + y2,
        y1.len() == y2.len(),
    ensures
        x1 == x2,
        y1 == y2,
{
    let s = x1 + y1;
    assert(x1 =~= s.subrange(0, x1.len() as int));
    assert(x2 =~= (x2 + y2).subrange(0, x2.len() as int));
    assert(y1 =~= s.subrange(x1.len() as int, s.len() as int));
    assert(y2 =~= (x2 + y2).subrange(x2.len() as int, s.len() as int));
}

pub proof fn lemma_single_text_param_injective(name: Seq<char>, v1: Seq<char>, v2: Seq<char>)
    requires
        seq![text_param(name, v1)] == seq![text_param(name, v2)],
    ensures
        v1 == v2,
{
    assert(seq![text_param(name, v1)][0] == seq![text_param(name, v2)][0]);
    lemma_text_param_injective(name, v1, v2);
}

pub proof fn lemma_opt_text_param_injective(name: Seq<char>, a: Option<String>, b: Option<String>)
    requires
        opt_text_param(name, a) == opt_text_param(name, b),
    ensures
        opt_view(a) == opt_view(b),
{
    if a is Some && b is None {
        assert(opt_text_param(name, a).len() == 1);
    }
    if a is None && b is Some {
        assert(opt_text_param(name, b).len() == 1);
    }
    if a is Some && b is Some {
        assert(opt_text_param(name, a)[0] == opt_text_param(name, b)[0]);
        lemma_text_param_injective(name, a->0@, b->0@);
    }
}

pub proof fn lemma_opt_nat_param_injective(name: Seq<char>, a: Option<u64>, b: Option<u64>)
    requires
        opt_nat_param(name, a) == opt_nat_param(name, b),
    ensures
        a == b,
{
    if a is Some && b is None {
        assert(opt_nat_param(name, a).len() == 1);
    }
    if a is None && b is Some {
        assert(opt_nat_param(name, b).len() == 1);
    }
    if a is Some && b is Some {
        assert(opt_nat_param(name, a)[0] == opt_nat_param(name, b)[0]);
        assert(decimal_int(a->0 as int) == decimal_nat(a->0 as nat));
        assert(decimal_int(b->0 as int) == decimal_nat(b->0 as nat));
        lemma_int_param_injective(name, a->0 as int, b->0 as int);
    }
}

pub proof fn lemma_opt_int_param_injective(name: Seq<char>, a: Option<i64>, b: Option<i64>)
    requires
        opt_int_param(name, a) == opt_int_param(name, b),
    ensures
        a == b,
{
    if a is Some && b is None {
        assert(opt_int_param(name, a).len() == 1);
    }
    if a is None && b is Some {
        assert(opt_int_param(name, b).len() == 1);
    }
    if a is Some && b is Some {
        assert(opt_int_param(name, a)[0] == opt_int_param(name, b)[0]);
        lemma_int_param_injective(name, a->0 as int, b->0 as int);
    }
}

/// Builds a query string one parameter at a time.
pub struct QueryBuilder {
    out: String,
    empty: bool,
    parts: Ghost<Seq<Seq<char>>>,
}

impl QueryBuilder {
    /// The parameters pushed so far, in order.
    pub closed spec fn params(&self) -> Seq<Seq<char>> {
        self.parts@
    }

    pub closed spec fn wf(&self) -> bool {
        &&& self.out@ == join_params(self.parts@)
        &&& self.empty == (self.parts@.len() == 0)
    }

    pub fn new() -> (r: QueryBuilder)
        ensures
            r.wf(),
            r.params() == Seq::<Seq<char>>::empty(),
    {
        QueryBuilder { out: String::new(), empty: true, parts: Ghost(Seq::empty()) }
    }

    /// Writes the separator and `name=`; the value follows.
    fn start_param(&mut self, name: &str)
        requires
            old(self).wf(),
        ensures
            final(self).out@ == join_params(old(self).parts@) + (if old(self).empty {
                Seq::<char>::empty()
            } else {
                seq!['&']
            }) + name@ + seq!['='],
            final(self).parts@ == old(self).parts@,
            final(self).empty == old(self).empty,
    {
        if !self.empty {
            push_char(&mut self.out, '&');
        }
        self.out.append(name);
        push_char(&mut self.out, '=');
    }

    proof fn lemma_pushed(parts: Seq<Seq<char>>, empty: bool, name: Seq<char>, value: Seq<char>)
        requires
            empty == (parts.len() == 0),
        ensures
            join_params(parts.push(param(name, value))) == join_params(parts) + (if empty {
                Seq::<char>::empty()
            } else {
                seq!['&']
            }) + name + seq!['='] + value,
    {
        let np = parts.push(param(name, value));
        assert(np.drop_last() == parts);
        if empty {
            assert(join_params(parts) == Seq::<char>::empty());
            assert(join_params(np) == np[0]);
        }
    }

    /// Appends `name=value` with the value form-encoded.
    pub fn push_text(&mut self, name: &str, value: &str)
        requires
            old(self).wf(),
        ensures
            final(self).wf(),
            final(self).params() == old(self).params().push(text_param(name@, value@)),
    {
        self.start_param(name);
        push_form_encoded(&mut self.out, value);
        proof {
            QueryBuilder::lemma_pushed(self.parts@, self.empty, name@, form_encode(value@));
            self.parts@ = self.parts@.push(text_param(name@, value@));
        }
        self.empty = false;
    }

    /// Appends `name=value` with the value in decimal.
    pub fn push_u64(&mut self, name: &str, value: u64)
        requires
            old(self).wf(),
        ensures
            final(self).wf(),
            final(self).params() == old(self).params().push(param(name@, decimal_nat(value as nat))),
    {
        self.start_param(name);
        push_decimal_u64(&mut self.out, value);
        proof {
            QueryBuilder::lemma_pushed(self.parts@, self.empty, name@, decimal_nat(value as nat));
            self.parts@ = self.parts@.push(param(name@, decimal_nat(value as nat)));
        }
        self.empty = false;
    }

    /// Appends `name=value` with the value in decimal, signed.
    pub fn push_i64(&mut self, name: &str, value: i64)
        requires
            old(self).wf(),
        ensures
            final(self).wf(),
            final(self).params() == old(self).params().push(param(name@, decimal_int(value as int))),
    {
        self.start_param(name);
        push_decimal_i64(&mut self.out, value);
        proof {
            QueryBuilder::lemma_pushed(self.parts@, self.empty, name@, decimal_int(value as int));
            self.parts@ = self.parts@.push(param(name@, decimal_int(value as int)));
        }
        self.empty = false;
    }

    /// Appends the parameter when the value is present.
    pub fn push_opt_text(&mut self, name: &str, value: &Option<String>)
        requires
            old(self).wf(),
        ensures
            final(self).wf(),
            final(self).params() == old(self).params() + opt_text_param(name@, *value),
    {
        match value {
            Some(v) => self.push_text(name, v.as_str()),
            None => {},
        }
        assert(self.params() =~= old(self).params() + opt_text_param(name@, *value));
    }

    /// Appends the parameter when the value is present.
    pub fn push_opt_u64(&mut self, name: &str, value: Option<u64>)
        requires
            old(self).wf(),
        ensures
            final(self).wf(),
            final(self).params() == old(self).params() + opt_nat_param(name@, value),
    {
        match value {
            Some(v) => self.push_u64(name, v),
            None => {},
        }
        assert(self.params() =~= old(self).params() + opt_nat_param(name@, value));
    }

    /// Appends the parameter when the value is present.
    pub fn push_opt_i64(&mut self, name: &str, value: Option<i64>)
        requires
            old(self).wf(),
        ensures
            final(self).wf(),
            final(self).params() == old(self).params() + opt_int_param(name@, value),
    {
        match value {
            Some(v) => self.push_i64(name, v),
            None => {},
        }
        assert(self.params() =~= old(self).params() + opt_int_param(name@, value));
    }

    /// The query string built.
    pub fn finish(self) -> (r: String)
        requires
            self.wf(),
        ensures
            r@ == join_params(self.params()),
    {
        self.out
    }
}

} // verus!
