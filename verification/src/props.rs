//! Ordered property bags and the renderers for the configuration files
//! handed to the product: an XML-flavored connection-properties file, a
//! Java-properties file and a shell-sourced environment file.
//!
//! A bag keeps entries in the order they were last set: setting a key
//! drops any earlier entry for it and appends the new one, so later
//! layers override earlier ones and rendering stays deterministic.

use vstd::prelude::*;

verus! {

use vstd::string::*;
use crate::crd::{KeyValue, KeyValueView};

/// One entry of a rendered configuration file; an absent value renders
/// as the empty value.
pub struct PropEntry {
    pub key: String,
    pub value: Option<String>,
}

/// Ghost image of a [`PropEntry`].
pub ghost struct PropEntryView {
    pub key: Seq<char>,
    pub value: Option<Seq<char>>,
}

impl DeepView for PropEntry {
    type V = PropEntryView;

    open spec fn deep_view(&self) -> PropEntryView {
        PropEntryView { key: self.key@, value: self.value.deep_view() }
    }
}

/// The bag without any entry for the key.
pub open spec fn spec_bag_without(s: Seq<PropEntryView>, key: Seq<char>) -> Seq<PropEntryView>
    decreases s.len(),
{
    if s.len() == 0 {
        Seq::empty()
    } else {
        spec_bag_without(s.drop_last(), key) + if s.last().key == key {
            Seq::empty()
        } else {
            seq![s.last()]
        }
    }
}

/// The bag with the key set: any earlier entry dropped, the new entry
/// appended.
pub open spec fn spec_bag_set(
    s: Seq<PropEntryView>,
    key: Seq<char>,
    value: Option<Seq<char>>,
) -> Seq<PropEntryView> {
    spec_bag_without(s, key) + seq![PropEntryView { key, value }]
}

/// The bag with every one of the entries set, in order.
pub open spec fn spec_bag_set_all(s: Seq<PropEntryView>, entries: Seq<KeyValueView>) -> Seq<
    PropEntryView,
>
    decreases entries.len(),
{
    if entries.len() == 0 {
        s
    } else {
        spec_bag_set(
            spec_bag_set_all(s, entries.drop_last()),
            entries.last().key,
            Some(entries.last().value),
        )
    }
}

/// The value of the first entry for the key, if any.
pub open spec fn spec_bag_get(s: Seq<PropEntryView>, key: Seq<char>) -> Option<
    Option<Seq<char>>,
>
    decreases s.len(),
{
    if s.len() == 0 {
        None
    } else if s[0].key == key {
        Some(s[0].value)
    } else {
        spec_bag_get(s.drop_first(), key)
    }
}

/// Sets a key: drops any earlier entry for it, appends the new one.
pub fn bag_set(bag: Vec<PropEntry>, key: String, value: Option<String>) -> (r: Vec<PropEntry>)
    ensures
        r.deep_view() == spec_bag_set(bag.deep_view(), key@, value.deep_view()),
{
    let mut kept: Vec<PropEntry> = Vec::new();
    let mut i: usize = 0;
    while i < bag.len()
        invariant
            i <= bag.len(),
            kept.deep_view() == spec_bag_without(bag.deep_view().subrange(0, i as int), key@),
        decreases bag.len() - i,
    {
        proof {
            let pre = bag.deep_view().subrange(0, i as int);
            let cur = bag.deep_view().subrange(0, i + 1 as int);
            assert(cur.drop_last() =~= pre);
            assert(cur.last() == bag.deep_view()[i as int]);
        }
        let same = bag[i].key == key;
        if !same {
            let ghost prev = kept.deep_view();
            let x = PropEntry {
                key: bag[i].key.clone(),
                value: crate::config::dup_opt_string(&bag[i].value),
            };
            let ghost gx = x;
            kept.push(x);
            proof {
                assert(kept.deep_view() =~= prev.push(gx.deep_view()));
                assert(gx.deep_view() == bag.deep_view()[i as int]);
                assert(kept.deep_view() =~= spec_bag_without(
                    bag.deep_view().subrange(0, i + 1 as int),
                    key@,
                ));
            }
        } else {
            proof {
                assert(kept.deep_view() =~= spec_bag_without(
                    bag.deep_view().subrange(0, i + 1 as int),
                    key@,
                ));
            }
        }
        i = i + 1;
    }
    proof {
        assert(bag.deep_view().subrange(0, bag.deep_view().len() as int) =~= bag.deep_view());
    }
    let ghost prev = kept.deep_view();
    let ghost gkey = key@;
    let ghost gvalue = value.deep_view();
    kept.push(PropEntry { key, value });
    proof {
        assert(kept.deep_view() =~= prev.push(PropEntryView { key: gkey, value: gvalue }));
        assert(kept.deep_view() =~= spec_bag_set(bag.deep_view(), gkey, gvalue));
    }
    kept
}

/// Sets every entry of the list, in order; later entries override
/// earlier ones and everything already in the bag.
pub fn bag_set_all(bag: Vec<PropEntry>, entries: &Vec<KeyValue>) -> (r: Vec<PropEntry>)
    ensures
        r.deep_view() == spec_bag_set_all(bag.deep_view(), entries.deep_view()),
{
    let ghost orig = bag.deep_view();
    let mut bag = bag;
    let mut i: usize = 0;
    while i < entries.len()
        invariant
            i <= entries.len(),
            bag.deep_view() == spec_bag_set_all(orig, entries.deep_view().subrange(0, i as int)),
        decreases entries.len() - i,
    {
        proof {
            let pre = entries.deep_view().subrange(0, i as int);
            let cur = entries.deep_view().subrange(0, i + 1 as int);
            assert(cur.drop_last() =~= pre);
            assert(cur.last() == entries.deep_view()[i as int]);
        }
        bag = bag_set(bag, entries[i].key.clone(), Some(entries[i].value.clone()));
        i = i + 1;
    }
    proof {
        assert(entries.deep_view().subrange(0, entries.deep_view().len() as int)
            =~= entries.deep_view());
    }
    bag
}

// ---------------------------------------------------------------------------
// Rendering.
// ---------------------------------------------------------------------------

/// The XML escape of one character.
pub open spec fn spec_xml_escape_char(c: char) -> Seq<char> {
    if c == '&' {
        "&amp;"@
    } else if c == '<' {
        "&lt;"@
    } else if c == '>' {
        "&gt;"@
    } else if c == '"' {
        "&quot;"@
    } else if c == '\'' {
        "&apos;"@
    } else {
        seq![c]
    }
}

/// The XML escape of a text.
pub open spec fn spec_xml_escape(s: Seq<char>) -> Seq<char>
    decreases s.len(),
{
    if s.len() == 0 {
        Seq::empty()
    } else {
        spec_xml_escape(s.drop_last()) + spec_xml_escape_char(s.last())
    }
}

/// Escapes a text for use in XML content.
pub fn xml_escape(s: &str) -> (r: String)
    ensures
        r@ == spec_xml_escape(s@),
{
    let len = s.unicode_len();
    let mut r = String::new();
    let mut i: usize = 0;
    proof {
        reveal_strlit("");
        assert(r@ =~= spec_xml_escape(s@.subrange(0, 0)));
    }
    while i < len
        invariant
            i <= len,
            len == s@.len(),
            r@ == spec_xml_escape(s@.subrange(0, i as int)),
        decreases len - i,
    {
        let c = s.get_char(i);
        if c == '&' {
            r.append("&amp;");
        } else if c == '<' {
            r.append("&lt;");
        } else if c == '>' {
            r.append("&gt;");
        } else if c == '"' {
            r.append("&quot;");
        } else if c == '\'' {
            r.append("&apos;");
        } else {
            r.push(c);
        }
        proof {
            let pre = s@.subrange(0, i as int);
            let cur = s@.subrange(0, i + 1 as int);
            assert(cur.drop_last() =~= pre);
            assert(cur.last() == s@[i as int]);
            assert(r@ =~= spec_xml_escape(cur));
        }
        i = i + 1;
    }
    proof {
        assert(s@.subrange(0, s@.len() as int) =~= s@);
    }
    r
}

/// One rendered XML property element.
pub open spec fn spec_xml_property(e: PropEntryView) -> Seq<char> {
    "  <property>\n    <name>"@ + spec_xml_escape(e.key) + "</name>\n    <value>"@ + match e.value {
        Some(v) => spec_xml_escape(v),
        None => Seq::empty(),
    } + "</value>\n  </property>\n"@
}

pub open spec fn spec_xml_properties(s: Seq<PropEntryView>) -> Seq<char>
    decreases s.len(),
{
    if s.len() == 0 {
        Seq::empty()
    } else {
        spec_xml_properties(s.drop_last()) + spec_xml_property(s.last())
    }
}

/// The rendered connection-properties file: an XML document with one
/// property element per entry, in bag order.
pub open spec fn spec_hadoop_xml(s: Seq<PropEntryView>) -> Seq<char> {
    "<?xml version=\"1.0\" encoding=\"UTF-8\"?>\n<configuration>\n"@ + spec_xml_properties(s)
        + "</configuration>\n"@
}

/// Renders the bag as an XML connection-properties file.
pub fn to_hadoop_xml(bag: &Vec<PropEntry>) -> (r: String)
    ensures
        r@ == spec_hadoop_xml(bag.deep_view()),
{
    let mut r = String::from_str("<?xml version=\"1.0\" encoding=\"UTF-8\"?>\n<configuration>\n");
    let ghost header = r@;
    let mut i: usize = 0;
    while i < bag.len()
        invariant
            i <= bag.len(),
            r@ == header + spec_xml_properties(bag.deep_view().subrange(0, i as int)),
        decreases bag.len() - i,
    {
        r.append("  <property>\n    <name>");
        let ek = xml_escape(bag[i].key.as_str());
        r.append(ek.as_str());
        r.append("</name>\n    <value>");
        match &bag[i].value {
            Some(v) => {
                let ev = xml_escape(v.as_str());
                r.append(ev.as_str());
            },
            None => {},
        }
        r.append("</value>\n  </property>\n");
        proof {
            let pre = bag.deep_view().subrange(0, i as int);
            let cur = bag.deep_view().subrange(0, i + 1 as int);
            assert(cur.drop_last() =~= pre);
            assert(cur.last() == bag.deep_view()[i as int]);
            assert(r@ =~= header + spec_xml_properties(cur));
        }
        i = i + 1;
    }
    r.append("</configuration>\n");
    proof {
        assert(bag.deep_view().subrange(0, bag.deep_view().len() as int) =~= bag.deep_view());
    }
    r
}

/// One rendered `key=value` line; an absent value renders empty.
pub open spec fn spec_kv_line(e: PropEntryView) -> Seq<char> {
    e.key + "="@ + match e.value {
        Some(v) => v,
        None => Seq::empty(),
    } + "\n"@
}

/// The rendered Java-properties file: one `key=value` line per entry, in
/// bag order.
pub open spec fn spec_java_properties(s: Seq<PropEntryView>) -> Seq<char>
    decreases s.len(),
{
    if s.len() == 0 {
        Seq::empty()
    } else {
        spec_java_properties(s.drop_last()) + spec_kv_line(s.last())
    }
}

/// Renders the bag as a Java-properties file.
pub fn to_java_properties(bag: &Vec<PropEntry>) -> (r: String)
    ensures
        r@ == spec_java_properties(bag.deep_view()),
{
    let mut r = String::new();
    proof {
        reveal_strlit("");
    }
    let mut i: usize = 0;
    while i < bag.len()
        invariant
            i <= bag.len(),
            r@ == spec_java_properties(bag.deep_view().subrange(0, i as int)),
        decreases bag.len() - i,
    {
        r.append(bag[i].key.as_str());
        r.append("=");
        match &bag[i].value {
            Some(v) => {
                r.append(v.as_str());
            },
            None => {},
        }
        r.append("\n");
        proof {
            let pre = bag.deep_view().subrange(0, i as int);
            let cur = bag.deep_view().subrange(0, i + 1 as int);
            assert(cur.drop_last() =~= pre);
            assert(cur.last() == bag.deep_view()[i as int]);
            assert(r@ =~= spec_java_properties(cur));
        }
        i = i + 1;
    }
    proof {
        assert(bag.deep_view().subrange(0, bag.deep_view().len() as int) =~= bag.deep_view());
    }
    r
}

} // verus!
