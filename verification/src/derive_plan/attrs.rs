//! Reading `#[sync(..)]` field attributes.

use vstd::prelude::*;

verus! {

/// One item inside a `#[sync(..)]` attribute, as the macro front end reads it.
#[derive(Debug, PartialEq, Eq)]
pub enum SyncMetaItem {
    /// `id`
    Id,
    /// `skip`
    Skip,
    /// `rename = "..."`: the string, or the parser's message when the value is not a string literal.
    Rename(Result<String, String>),
    /// `with = path`: the path's text, or the parser's message when the value is not a path.
    With(Result<String, String>),
    /// Any other name, by its text.
    Unsupported(String),
}

/// One attribute on a field: whether it is `#[sync(..)]`, and its items in order.
#[derive(Debug, PartialEq, Eq)]
pub struct AttrInput {
    pub is_sync: bool,
    pub items: Vec<SyncMetaItem>,
}

/// An error of the derive, with the name of the item it points at.
#[derive(Debug, PartialEq, Eq)]
pub struct Diagnostic {
    pub at: String,
    pub message: String,
}

impl Clone for Diagnostic {
    fn clone(&self) -> (r: Self)
        ensures
            r == *self,
    {
        Diagnostic { at: self.at.clone(), message: self.message.clone() }
    }
}

/// The `#[sync(..)]` settings of one field.
#[derive(Debug, PartialEq, Eq)]
pub struct SyncAttrs {
    pub is_id: bool,
    pub is_skip: bool,
    pub rename: Option<String>,
    pub with: Option<String>,
}

/// Clones an optional string.
pub fn clone_text_option(value: &Option<String>) -> (r: Option<String>)
    ensures
        r == *value,
{
    match value {
        Some(text) => Some(text.clone()),
        None => None,
    }
}

impl Clone for SyncAttrs {
    fn clone(&self) -> (r: Self)
        ensures
            r == *self,
    {
        SyncAttrs {
            is_id: self.is_id,
            is_skip: self.is_skip,
            rename: clone_text_option(&self.rename),
            with: clone_text_option(&self.with),
        }
    }
}

impl SyncAttrs {
    /// No setting given.
    pub open spec fn empty() -> SyncAttrs {
        SyncAttrs { is_id: false, is_skip: false, rename: None, with: None }
    }

    pub fn new() -> (r: Self)
        ensures
            r == SyncAttrs::empty(),
    {
        SyncAttrs { is_id: false, is_skip: false, rename: None, with: None }
    }

    /// The name the field goes by on the wire.
    pub open spec fn wire_name_of(self, rust_name: Seq<char>) -> Seq<char> {
        match self.rename {
            Some(name) => name@,
            None => rust_name,
        }
    }

    /// The name the field goes by on the wire: the `rename` value, or the field's own name.
    pub fn wire_name(&self, rust_name: &str) -> (r: String)
        ensures
            r@ == self.wire_name_of(rust_name@),
    {
        match &self.rename {
            Some(name) => name.clone(),
            None => rust_name.to_owned(),
        }
    }
}

/// The message for a flag given twice.
pub open spec fn duplicate_message(name: Seq<char>) -> Seq<char> {
    "duplicate `"@ + name + "` attribute"@
}

/// The diagnostic of one item given the settings read so far.
pub open spec fn item_step(parsed: SyncAttrs, item: SyncMetaItem) -> Result<SyncAttrs, (Seq<char>, Seq<char>)> {
    match item {
        SyncMetaItem::Id => if parsed.is_id {
            Err(("id"@, duplicate_message("id"@)))
        } else {
            Ok(SyncAttrs { is_id: true, ..parsed })
        },
        SyncMetaItem::Skip => if parsed.is_skip {
            Err(("skip"@, duplicate_message("skip"@)))
        } else {
            Ok(SyncAttrs { is_skip: true, ..parsed })
        },
        SyncMetaItem::Rename(value) => if parsed.rename is Some {
            Err(("rename"@, duplicate_message("rename"@)))
        } else {
            match value {
                Ok(name) => Ok(SyncAttrs { rename: Some(name), ..parsed }),
                Err(message) => Err(("rename"@, message@)),
            }
        },
        SyncMetaItem::With(value) => if parsed.with is Some {
            Err(("with"@, duplicate_message("with"@)))
        } else {
            match value {
                Ok(path) => Ok(SyncAttrs { with: Some(path), ..parsed }),
                Err(message) => Err(("with"@, message@)),
            }
        },
        SyncMetaItem::Unsupported(name) => Err((name@, "unsupported `sync` attribute"@)),
    }
}

/// The settings read from `items` in order, starting from `start`; the first
/// failing item stops the reading with its (place, message).
pub open spec fn read_items(start: SyncAttrs, items: Seq<SyncMetaItem>) -> Result<SyncAttrs, (Seq<char>, Seq<char>)>
    decreases items.len(),
{
    if items.len() == 0 {
        Ok(start)
    } else {
        match read_items(start, items.drop_last()) {
            Ok(parsed) => item_step(parsed, items.last()),
            Err(error) => Err(error),
        }
    }
}

/// The items of all `#[sync(..)]` attributes, in order.
pub open spec fn sync_items(attrs: Seq<AttrInput>) -> Seq<SyncMetaItem>
    decreases attrs.len(),
{
    if attrs.len() == 0 {
        Seq::empty()
    } else {
        sync_items(attrs.drop_last()) + if attrs.last().is_sync {
            attrs.last().items@
        } else {
            Seq::empty()
        }
    }
}

/// What reading the attributes of a field gives.
pub open spec fn parse_sync_attrs_spec(attrs: Seq<AttrInput>) -> Result<SyncAttrs, (Seq<char>, Seq<char>)> {
    read_items(SyncAttrs::empty(), sync_items(attrs))
}

/// Reads one item on top of the settings read so far.
fn apply_item(parsed: SyncAttrs, item: &SyncMetaItem) -> (r: Result<SyncAttrs, Diagnostic>)
    ensures
        match r {
            Ok(next) => item_step(parsed, *item) == Ok::<SyncAttrs, (Seq<char>, Seq<char>)>(next),
            Err(d) => item_step(parsed, *item) == Err::<SyncAttrs, (Seq<char>, Seq<char>)>(
                (d.at@, d.message@),
            ),
        },
{
    match item {
        SyncMetaItem::Id => if parsed.is_id {
            Err(Diagnostic { at: "id".to_owned(), message: "duplicate `".to_owned().concat("id").concat("` attribute") })
        } else {
            Ok(SyncAttrs { is_id: true, ..parsed })
        },
        SyncMetaItem::Skip => if parsed.is_skip {
            Err(Diagnostic { at: "skip".to_owned(), message: "duplicate `".to_owned().concat("skip").concat("` attribute") })
        } else {
            Ok(SyncAttrs { is_skip: true, ..parsed })
        },
        SyncMetaItem::Rename(value) => if parsed.rename.is_some() {
            Err(Diagnostic { at: "rename".to_owned(), message: "duplicate `".to_owned().concat("rename").concat("` attribute") })
        } else {
            match value {
                Ok(name) => Ok(SyncAttrs { rename: Some(name.clone()), ..parsed }),
                Err(message) => Err(Diagnostic { at: "rename".to_owned(), message: message.clone() }),
            }
        },
        SyncMetaItem::With(value) => if parsed.with.is_some() {
            Err(Diagnostic { at: "with".to_owned(), message: "duplicate `".to_owned().concat("with").concat("` attribute") })
        } else {
            match value {
                Ok(path) => Ok(SyncAttrs { with: Some(path.clone()), ..parsed }),
                Err(message) => Err(Diagnostic { at: "with".to_owned(), message: message.clone() }),
            }
        },
        SyncMetaItem::Unsupported(name) => Err(
            Diagnostic { at: name.clone(), message: "unsupported `sync` attribute".to_owned() },
        ),
    }
}

/// Reads the `#[sync(..)]` attributes of a field; other attributes are ignored.
/// The first item that is given twice, malformed or unknown stops the reading.
pub fn parse_sync_attrs(attrs: &Vec<AttrInput>) -> (r: Result<SyncAttrs, Diagnostic>)
    ensures
        match r {
            Ok(parsed) => parse_sync_attrs_spec(attrs@) == Ok::<SyncAttrs, (Seq<char>, Seq<char>)>(
                parsed,
            ),
            Err(d) => parse_sync_attrs_spec(attrs@) == Err::<SyncAttrs, (Seq<char>, Seq<char>)>(
                (d.at@, d.message@),
            ),
        },
{
    let mut parsed = SyncAttrs::new();
    let mut a: usize = 0;
    while a < attrs.len()
        invariant
            a <= attrs@.len(),
            read_items(SyncAttrs::empty(), sync_items(attrs@.take(a as int))) == Ok::<
                SyncAttrs,
                (Seq<char>, Seq<char>),
            >(parsed),
        decreases attrs@.len() - a,
    {
        let attr = &attrs[a];
        let ghost before = sync_items(attrs@.take(a as int));
        assert(attrs@.take(a as int + 1).drop_last() =~= attrs@.take(a as int));
        if attr.is_sync {
            let mut i: usize = 0;
            while i < attr.items.len()
                invariant
                    i <= attr.items@.len(),
                    a < attrs@.len(),
                    *attr == attrs@[a as int],
                    attr.is_sync,
                    before == sync_items(attrs@.take(a as int)),
                    attrs@.take(a as int + 1).drop_last() =~= attrs@.take(a as int),
                    read_items(SyncAttrs::empty(), before + attr.items@.take(i as int)) == Ok::<
                        SyncAttrs,
                        (Seq<char>, Seq<char>),
                    >(parsed),
                decreases attr.items@.len() - i,
            {
                let ghost next_items = before + attr.items@.take(i as int + 1);
                assert(next_items.drop_last() =~= before + attr.items@.take(i as int));
                assert(next_items.last() == attr.items@[i as int]);
                match apply_item(parsed, &attr.items[i]) {
                    Ok(next) => {
                        parsed = next;
                    },
                    Err(d) => {
                        proof {
                            let e = (d.at@, d.message@);
                            let prefix = before + attr.items@.take(i as int + 1);
                            lemma_read_items_stays_failed(prefix, attr.items@.skip(i as int + 1), e);
                            assert(prefix + attr.items@.skip(i as int + 1) =~= before + attr.items@);
                            assert(sync_items(attrs@.take(a as int + 1)) == before + attr.items@);
                            lemma_sync_items_prefix(attrs@, a as int + 1);
                            let rest = sync_items(attrs@).skip(sync_items(attrs@.take(a as int + 1)).len() as int);
                            lemma_read_items_stays_failed(before + attr.items@, rest, e);
                        }
                        return Err(d);
                    },
                }
                i = i + 1;
            }
            assert(attr.items@.take(attr.items@.len() as int) =~= attr.items@);
        } else {
            assert(before + Seq::<SyncMetaItem>::empty() =~= before);
        }
        a = a + 1;
    }
    assert(attrs@.take(attrs@.len() as int) =~= attrs@);
    Ok(parsed)
}

/// Once reading fails, more items do not change the failure.
proof fn lemma_read_items_stays_failed(
    items: Seq<SyncMetaItem>,
    more: Seq<SyncMetaItem>,
    error: (Seq<char>, Seq<char>),
)
    requires
        read_items(SyncAttrs::empty(), items) == Err::<SyncAttrs, (Seq<char>, Seq<char>)>(error),
    ensures
        read_items(SyncAttrs::empty(), items + more) == Err::<SyncAttrs, (Seq<char>, Seq<char>)>(error),
    decreases more.len(),
{
    if more.len() > 0 {
        lemma_read_items_stays_failed(items, more.drop_last(), error);
        assert((items + more).drop_last() =~= items + more.drop_last());
    }
}

/// The items of a prefix of the attributes come first among all items.
proof fn lemma_sync_items_prefix(attrs: Seq<AttrInput>, n: int)
    requires
        0 <= n <= attrs.len(),
    ensures
        sync_items(attrs.take(n)) + sync_items(attrs).skip(sync_items(attrs.take(n)).len() as int)
            == sync_items(attrs),
    decreases attrs.len() - n,
{
    if n < attrs.len() {
        lemma_sync_items_prefix(attrs, n + 1);
        assert(attrs.take(n + 1).drop_last() =~= attrs.take(n));
        let whole = sync_items(attrs);
        let a = sync_items(attrs.take(n));
        let b = sync_items(attrs.take(n + 1));
        assert(b.subrange(0, a.len() as int) =~= a);
        assert(whole.subrange(0, b.len() as int) =~= b);
        assert(a + whole.skip(a.len() as int) =~= whole);
    } else {
        assert(attrs.take(n) =~= attrs);
        assert(sync_items(attrs).skip(sync_items(attrs).len() as int) =~= Seq::<SyncMetaItem>::empty());
        assert(sync_items(attrs) + Seq::<SyncMetaItem>::empty() =~= sync_items(attrs));
    }
}

} // verus!
