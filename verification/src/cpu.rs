use vstd::prelude::*;
use crate::text::{ascii_lower_seq, chars_of, contains, contains_chars, occurs_at};

verus! {

/// What `str::to_lowercase` gives for `s`: its Unicode lower-case mapping.
pub uninterp spec fn unicode_lowercase(s: Seq<char>) -> Seq<char>;

/// `str::to_lowercase`: the Unicode lower case of `s`. The contract names the result, and
/// states the one short fact that its documentation gives: on ASCII text it is
/// `to_ascii_lowercase`.
#[verifier::external_body]
fn to_lowercase(s: &str) -> (r: String)
    ensures
        r@ == unicode_lowercase(s@),
        vstd::utf8::is_ascii_chars(s@) ==> r@ == ascii_lower_seq(s@),
{
    s.to_lowercase()
}

/// Whether a lower-case sensor label names a CPU temperature sensor: it contains one of
/// `cpu`, `core`, `package`, `tctl`, `tccd`, `k10temp` or `coretemp`.
pub open spec fn names_cpu_sensor(lower: Seq<char>) -> bool {
    ||| contains(lower, seq!['c', 'p', 'u'])
    ||| contains(lower, seq!['c', 'o', 'r', 'e'])
    ||| contains(lower, seq!['p', 'a', 'c', 'k', 'a', 'g', 'e'])
    ||| contains(lower, seq!['t', 'c', 't', 'l'])
    ||| contains(lower, seq!['t', 'c', 'c', 'd'])
    ||| contains(lower, seq!['k', '1', '0', 't', 'e', 'm', 'p'])
    ||| contains(lower, seq!['c', 'o', 'r', 'e', 't', 'e', 'm', 'p'])
}

/// Whether the lower-case label `lower` names a CPU temperature sensor.
pub fn label_has_cpu_keyword(lower: &str) -> (b: bool)
    ensures
        b == names_cpu_sensor(lower@),
        contains(lower@, seq!['c', 'p', 'u']) ==> b,
        contains(lower@, seq!['c', 'o', 'r', 'e']) ==> b,
        contains(lower@, seq!['p', 'a', 'c', 'k', 'a', 'g', 'e']) ==> b,
        contains(lower@, seq!['t', 'c', 't', 'l']) ==> b,
        contains(lower@, seq!['t', 'c', 'c', 'd']) ==> b,
        contains(lower@, seq!['k', '1', '0', 't', 'e', 'm', 'p']) ==> b,
        contains(lower@, seq!['c', 'o', 'r', 'e', 't', 'e', 'm', 'p']) ==> b,
{
    let l = chars_of(lower);
    let l = l.as_slice();
    let cpu = vec!['c', 'p', 'u'];
    let core = vec!['c', 'o', 'r', 'e'];
    let package = vec!['p', 'a', 'c', 'k', 'a', 'g', 'e'];
    let tctl = vec!['t', 'c', 't', 'l'];
    let tccd = vec!['t', 'c', 'c', 'd'];
    let k10temp = vec!['k', '1', '0', 't', 'e', 'm', 'p'];
    let coretemp = vec!['c', 'o', 'r', 'e', 't', 'e', 'm', 'p'];
    assert(cpu@ =~= seq!['c', 'p', 'u']);
    assert(core@ =~= seq!['c', 'o', 'r', 'e']);
    assert(package@ =~= seq!['p', 'a', 'c', 'k', 'a', 'g', 'e']);
    assert(tctl@ =~= seq!['t', 'c', 't', 'l']);
    assert(tccd@ =~= seq!['t', 'c', 'c', 'd']);
    assert(k10temp@ =~= seq!['k', '1', '0', 't', 'e', 'm', 'p']);
    assert(coretemp@ =~= seq!['c', 'o', 'r', 'e', 't', 'e', 'm', 'p']);
    contains_chars(l, cpu.as_slice()) || contains_chars(l, core.as_slice()) || contains_chars(
        l,
        package.as_slice(),
    ) || contains_chars(l, tctl.as_slice()) || contains_chars(l, tccd.as_slice())
        || contains_chars(l, k10temp.as_slice()) || contains_chars(l, coretemp.as_slice())
}

/// Whether a temperature sensor with this label measures the CPU: its lower-case form
/// contains one of the CPU sensor keywords.
pub fn is_cpu_sensor_label(label: &str) -> (b: bool)
    ensures
        b == names_cpu_sensor(unicode_lowercase(label@)),
        contains(unicode_lowercase(label@), seq!['c', 'p', 'u']) ==> b,
        contains(unicode_lowercase(label@), seq!['c', 'o', 'r', 'e']) ==> b,
        contains(unicode_lowercase(label@), seq!['p', 'a', 'c', 'k', 'a', 'g', 'e']) ==> b,
        contains(unicode_lowercase(label@), seq!['t', 'c', 't', 'l']) ==> b,
        contains(unicode_lowercase(label@), seq!['t', 'c', 'c', 'd']) ==> b,
        contains(unicode_lowercase(label@), seq!['k', '1', '0', 't', 'e', 'm', 'p']) ==> b,
        contains(unicode_lowercase(label@), seq!['c', 'o', 'r', 'e', 't', 'e', 'm', 'p']) ==> b,
{
    let lower = to_lowercase(label);
    label_has_cpu_keyword(lower.as_str())
}

/// Every keyword counts on its own: a lower-case label that contains any one of `cpu`,
/// `core`, `package`, `tctl`, `tccd`, `k10temp` or `coretemp`, wherever in the label and
/// whatever else it holds, names a CPU sensor.
pub proof fn lemma_each_keyword_names_cpu_sensor(lower: Seq<char>)
    ensures
        contains(lower, seq!['c', 'p', 'u']) ==> names_cpu_sensor(lower),
        contains(lower, seq!['c', 'o', 'r', 'e']) ==> names_cpu_sensor(lower),
        contains(lower, seq!['p', 'a', 'c', 'k', 'a', 'g', 'e']) ==> names_cpu_sensor(lower),
        contains(lower, seq!['t', 'c', 't', 'l']) ==> names_cpu_sensor(lower),
        contains(lower, seq!['t', 'c', 'c', 'd']) ==> names_cpu_sensor(lower),
        contains(lower, seq!['k', '1', '0', 't', 'e', 'm', 'p']) ==> names_cpu_sensor(lower),
        contains(lower, seq!['c', 'o', 'r', 'e', 't', 'e', 'm', 'p']) ==> names_cpu_sensor(lower),
{
}

/// A label made of anything, then a keyword, then anything, names a CPU sensor.
pub proof fn lemma_keyword_anywhere_names_cpu_sensor(before: Seq<char>, after: Seq<char>)
    ensures
        names_cpu_sensor(before + seq!['c', 'p', 'u'] + after),
        names_cpu_sensor(before + seq!['c', 'o', 'r', 'e'] + after),
        names_cpu_sensor(before + seq!['p', 'a', 'c', 'k', 'a', 'g', 'e'] + after),
        names_cpu_sensor(before + seq!['t', 'c', 't', 'l'] + after),
        names_cpu_sensor(before + seq!['t', 'c', 'c', 'd'] + after),
        names_cpu_sensor(before + seq!['k', '1', '0', 't', 'e', 'm', 'p'] + after),
        names_cpu_sensor(before + seq!['c', 'o', 'r', 'e', 't', 'e', 'm', 'p'] + after),
{
    assert(occurs_at(before + seq!['c', 'p', 'u'] + after, seq!['c', 'p', 'u'], before.len() as int)) by {
        assert((before + seq!['c', 'p', 'u'] + after).subrange(before.len() as int, before.len() as int + 3) =~= seq!['c', 'p', 'u']);
    }
    assert(occurs_at(before + seq!['c', 'o', 'r', 'e'] + after, seq!['c', 'o', 'r', 'e'], before.len() as int)) by {
        assert((before + seq!['c', 'o', 'r', 'e'] + after).subrange(before.len() as int, before.len() as int + 4) =~= seq!['c', 'o', 'r', 'e']);
    }
    assert(occurs_at(before + seq!['p', 'a', 'c', 'k', 'a', 'g', 'e'] + after, seq!['p', 'a', 'c', 'k', 'a', 'g', 'e'], before.len() as int)) by {
        assert((before + seq!['p', 'a', 'c', 'k', 'a', 'g', 'e'] + after).subrange(before.len() as int, before.len() as int + 7) =~= seq!['p', 'a', 'c', 'k', 'a', 'g', 'e']);
    }
    assert(occurs_at(before + seq!['t', 'c', 't', 'l'] + after, seq!['t', 'c', 't', 'l'], before.len() as int)) by {
        assert((before + seq!['t', 'c', 't', 'l'] + after).subrange(before.len() as int, before.len() as int + 4) =~= seq!['t', 'c', 't', 'l']);
    }
    assert(occurs_at(before + seq!['t', 'c', 'c', 'd'] + after, seq!['t', 'c', 'c', 'd'], before.len() as int)) by {
        assert((before + seq!['t', 'c', 'c', 'd'] + after).subrange(before.len() as int, before.len() as int + 4) =~= seq!['t', 'c', 'c', 'd']);
    }
    assert(occurs_at(before + seq!['k', '1', '0', 't', 'e', 'm', 'p'] + after, seq!['k', '1', '0', 't', 'e', 'm', 'p'], before.len() as int)) by {
        assert((before + seq!['k', '1', '0', 't', 'e', 'm', 'p'] + after).subrange(before.len() as int, before.len() as int + 7) =~= seq!['k', '1', '0', 't', 'e', 'm', 'p']);
    }
    assert(occurs_at(before + seq!['c', 'o', 'r', 'e', 't', 'e', 'm', 'p'] + after, seq!['c', 'o', 'r', 'e', 't', 'e', 'm', 'p'], before.len() as int)) by {
        assert((before + seq!['c', 'o', 'r', 'e', 't', 'e', 'm', 'p'] + after).subrange(before.len() as int, before.len() as int + 8) =~= seq!['c', 'o', 'r', 'e', 't', 'e', 'm', 'p']);
    }
}

} // verus!
