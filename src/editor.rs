use crate::key_value::KeyValueMap;
use vstd::prelude::*;

verus! {

/// One row of a key/value table whose key or value the user changed.
#[derive(Debug)]
pub struct RowEdit {
    pub old_key: String,
    pub new_key: String,
    pub new_value: String,
}

/// What the user did to one key/value table during one redraw.
#[derive(Debug)]
pub struct EditorPass {
    /// The key of the row whose delete button was pressed, if any.
    pub removed: Option<String>,
    /// The changed rows, in the order the table showed them.
    pub edits: Vec<RowEdit>,
    /// Whether the add button was pressed.
    pub add_clicked: bool,
}

/// A row edit as plain values: (old key, new key, new value).
pub type EditView = (Seq<char>, Seq<char>, Seq<char>);

/// The plain view of a list of row edits.
pub open spec fn edits_view(v: Seq<RowEdit>) -> Seq<EditView> {
    v.map_values(|e: RowEdit| (e.old_key@, e.new_key@, e.new_value@))
}

/// A rename is a removal of the old key followed by an insertion of the new one.
pub open spec fn apply_edit(m: Map<Seq<char>, Seq<char>>, e: EditView) -> Map<Seq<char>, Seq<char>> {
    m.remove(e.0).insert(e.1, e.2)
}

/// The edits applied one after another, in order.
pub open spec fn apply_edits(m: Map<Seq<char>, Seq<char>>, edits: Seq<EditView>) -> Map<
    Seq<char>,
    Seq<char>,
>
    decreases edits.len(),
{
    if edits.len() == 0 {
        m
    } else {
        apply_edit(apply_edits(m, edits.drop_last()), edits.last())
    }
}

/// A whole pass: the deletion first, then the edits in order, then a new
/// entry with empty key and value if the add button was pressed.
pub open spec fn apply_pass(
    m: Map<Seq<char>, Seq<char>>,
    removed: Option<Seq<char>>,
    edits: Seq<EditView>,
    add_clicked: bool,
) -> Map<Seq<char>, Seq<char>> {
    let after_remove = match removed {
        Some(k) => m.remove(k),
        None => m,
    };
    let after_edits = apply_edits(after_remove, edits);
    if add_clicked {
        after_edits.insert(Seq::<char>::empty(), Seq::<char>::empty())
    } else {
        after_edits
    }
}

impl EditorPass {
    /// The deleted key as a plain value.
    pub open spec fn removed_view(&self) -> Option<Seq<char>> {
        match self.removed {
            Some(k) => Some(k@),
            None => None,
        }
    }

    /// Whether the pass changed anything the user sees.
    pub open spec fn changes(&self) -> bool {
        self.removed.is_some() || self.edits@.len() > 0 || self.add_clicked
    }
}

/// Applies one pass of user actions to a key/value table and reports
/// whether anything was done.
pub fn apply_editor_pass(map: &mut KeyValueMap, pass: &EditorPass) -> (changed: bool)
    ensures
        final(map)@ == apply_pass(old(map)@, pass.removed_view(), edits_view(pass.edits@), pass.add_clicked),
        changed == pass.changes(),
{
    let mut changed = false;
    match &pass.removed {
        Some(k) => {
            map.remove(k.as_str());
            changed = true;
        },
        None => {},
    }
    let ghost start = map@;
    let ghost edits = edits_view(pass.edits@);
    let mut i: usize = 0;
    while i < pass.edits.len()
        invariant
            i <= pass.edits.len(),
            edits == edits_view(pass.edits@),
            map@ == apply_edits(start, edits.take(i as int)),
            changed == (pass.removed.is_some() || i > 0),
        decreases pass.edits.len() - i,
    {
        let e = &pass.edits[i];
        map.remove(e.old_key.as_str());
        map.insert(e.new_key.clone(), e.new_value.clone());
        assert(edits.take(i + 1).drop_last() =~= edits.take(i as int));
        i = i + 1;
        changed = true;
    }
    assert(edits.take(i as int) =~= edits);
    if pass.add_clicked {
        map.insert(String::new(), String::new());
        changed = true;
    }
    changed
}

/// When several rows are renamed to the same key in one pass, the map keeps
/// one entry under that key, holding the value of the last such row, provided
/// no later row renames or removes that key.
pub proof fn lemma_last_rename_wins(m: Map<Seq<char>, Seq<char>>, edits: Seq<EditView>, j: int)
    requires
        0 <= j < edits.len(),
        forall|i: int|
            j < i < edits.len() ==> #[trigger] edits[i].0 != edits[j].1 && edits[i].1 != edits[j].1,
    ensures
        apply_edits(m, edits).contains_key(edits[j].1),
        apply_edits(m, edits)[edits[j].1] == edits[j].2,
    decreases edits.len(),
{
    if j < edits.len() - 1 {
        let prefix = edits.drop_last();
        assert forall|i: int| j < i < prefix.len() implies #[trigger] prefix[i].0 != prefix[j].1
            && prefix[i].1 != prefix[j].1 by {
            assert(prefix[i] == edits[i]);
        }
        lemma_last_rename_wins(m, prefix, j);
        assert(edits[edits.len() - 1].0 != edits[j].1);
    }
}

} // verus!
