//! Markdown export: deterministic file names and contents for a note
//! collection, and a model of what an export leaves in the sync directory.
//!
//! The library computes the full write plan; the caller creates the
//! directory, removes the stale `.md` files, and writes the planned files in
//! order. A directory is modelled as a map from file name to file content,
//! both as character sequences.

use vstd::prelude::*;
use vstd::string::*;

use crate::note::Note;
use crate::sanitize::{sanitize_filename, sanitize_spec};
use crate::text::{
    bool_rep, bool_to_str, comma_join, dec_rep_int, i64_to_dec, join_comma,
};

verus! {

/// The exported file name for a title: the sanitized title plus `.md`.
pub open spec fn filename_spec(title: Seq<char>) -> Seq<char> {
    sanitize_spec(title) + ".md"@
}

/// The exported file content for a note: front matter between `---` lines
/// (id, notebook, status, pinned, comma-joined tags, created, updated), then
/// the title as a heading, then the raw body.
pub open spec fn render_spec(n: Note) -> Seq<char> {
    "---\nid: "@ + n.id@ + "\nnotebook: "@ + n.notebook_id@ + "\nstatus: "@ + n.status@
        + "\npinned: "@ + bool_rep(n.pinned) + "\ntags: "@ + comma_join(n.tags.deep_view())
        + "\ncreated: "@ + dec_rep_int(n.created_at as int) + "\nupdated: "@ + dec_rep_int(
        n.updated_at as int,
    ) + "\n---\n\n"@ + "# "@ + n.title@ + "\n\n"@ + n.content@
}

/// The file name under which a note with this title is exported.
pub fn note_filename(title: &str) -> (r: String)
    ensures
        r@ == filename_spec(title@),
{
    sanitize_filename(title).concat(".md")
}

/// Renders one note as its exported Markdown document.
pub fn render_note(n: &Note) -> (r: String)
    ensures
        r@ == render_spec(*n),
{
    let mut s = String::from_str("---\nid: ");
    s.append(n.id.as_str());
    s.append("\nnotebook: ");
    s.append(n.notebook_id.as_str());
    s.append("\nstatus: ");
    s.append(n.status.as_str());
    s.append("\npinned: ");
    s.append(bool_to_str(n.pinned));
    s.append("\ntags: ");
    let tags = join_comma(&n.tags);
    s.append(tags.as_str());
    s.append("\ncreated: ");
    let created = i64_to_dec(n.created_at);
    s.append(created.as_str());
    s.append("\nupdated: ");
    let updated = i64_to_dec(n.updated_at);
    s.append(updated.as_str());
    s.append("\n---\n\n");
    s.append("# ");
    s.append(n.title.as_str());
    s.append("\n\n");
    s.append(n.content.as_str());
    proof {
        assert(s@ =~= render_spec(*n));
    }
    s
}

/// The ordered write plan for a collection: one `(file name, content)` pair
/// per note, in input order. Names are not de-duplicated; when two titles
/// sanitize alike, the later entry overwrites the earlier one on disk.
pub fn export_plan(notes: &Vec<Note>) -> (r: Vec<(String, String)>)
    ensures
        r@.len() == notes@.len(),
        forall|i: int|
            0 <= i < notes@.len() ==> (#[trigger] r@[i]).0@ == filename_spec(notes@[i].title@)
                && r@[i].1@ == render_spec(notes@[i]),
{
    let mut plan: Vec<(String, String)> = Vec::new();
    let mut i: usize = 0;
    while i < notes.len()
        invariant
            i <= notes@.len(),
            plan@.len() == i,
            forall|j: int|
                0 <= j < i ==> (#[trigger] plan@[j]).0@ == filename_spec(notes@[j].title@)
                    && plan@[j].1@ == render_spec(notes@[j]),
        decreases notes@.len() - i,
    {
        let name = note_filename(notes[i].title.as_str());
        let content = render_note(&notes[i]);
        plan.push((name, content));
        i += 1;
    }
    plan
}

/// A direct-child file name that the cleanup pass removes: one that ends in
/// `.md`.
pub open spec fn is_md_name(name: Seq<char>) -> bool {
    name.len() >= 3 && name.subrange(name.len() - 3, name.len() as int) == ".md"@
}

/// Decides whether a file name ends in `.md`.
pub fn is_md_filename(name: &str) -> (r: bool)
    ensures
        r == is_md_name(name@),
{
    let n = name.unicode_len();
    if n < 3 {
        return false;
    }
    proof {
        reveal_strlit(".md");
    }
    let r = name.get_char(n - 3) == '.' && name.get_char(n - 2) == 'm' && name.get_char(n - 1)
        == 'd';
    proof {
        let tail = name@.subrange(name@.len() - 3, name@.len() as int);
        if r {
            assert(tail =~= ".md"@);
        } else {
            assert(tail[0] == name@[name@.len() - 3]);
            assert(tail[1] == name@[name@.len() - 2]);
            assert(tail[2] == name@[name@.len() - 1]);
        }
    }
    r
}

/// The set of all file names the cleanup pass touches.
pub open spec fn md_names() -> Set<Seq<char>> {
    Set::new(|k: Seq<char>| is_md_name(k))
}

/// The `.md` files an export of `notes` writes: inserted in input order, so
/// for colliding names the last note wins.
pub open spec fn export_map(notes: Seq<Note>) -> Map<Seq<char>, Seq<char>>
    decreases notes.len(),
{
    if notes.len() == 0 {
        Map::empty()
    } else {
        export_map(notes.drop_last()).insert(
            filename_spec(notes.last().title@),
            render_spec(notes.last()),
        )
    }
}

/// The directory after an export: every `.md` file removed, then the planned
/// files written in order.
pub open spec fn after_export(dir: Map<Seq<char>, Seq<char>>, notes: Seq<Note>) -> Map<
    Seq<char>,
    Seq<char>,
> {
    dir.remove_keys(md_names()).union_prefer_right(export_map(notes))
}

/// Every exported file name ends in `.md`.
pub proof fn lemma_filename_is_md(title: Seq<char>)
    ensures
        is_md_name(filename_spec(title)),
{
    reveal_strlit(".md");
    let f = filename_spec(title);
    assert(f.subrange(f.len() - 3, f.len() as int) =~= ".md"@);
}

/// An export writes exactly the names that some note's title maps to.
pub proof fn lemma_export_map_dom(notes: Seq<Note>)
    ensures
        forall|k: Seq<char>|
            export_map(notes).dom().contains(k) <==> exists|i: int|
                0 <= i < notes.len() && #[trigger] filename_spec(notes[i].title@) == k,
    decreases notes.len(),
{
    if notes.len() > 0 {
        lemma_export_map_dom(notes.drop_last());
        let prefix = notes.drop_last();
        assert forall|k: Seq<char>| export_map(notes).dom().contains(k) implies exists|i: int|
            0 <= i < notes.len() && #[trigger] filename_spec(notes[i].title@) == k by {
            if k == filename_spec(notes.last().title@) {
                assert(filename_spec(notes[notes.len() - 1].title@) == k);
            } else {
                assert(export_map(prefix).dom().contains(k));
                let i = choose|i: int|
                    0 <= i < prefix.len() && #[trigger] filename_spec(prefix[i].title@) == k;
                assert(prefix[i] == notes[i]);
                assert(filename_spec(notes[i].title@) == k);
            }
        }
        assert forall|k: Seq<char>|
            exists|i: int|
                0 <= i < notes.len() && #[trigger] filename_spec(notes[i].title@)
                    == k implies export_map(notes).dom().contains(k) by {
            let i = choose|i: int|
                0 <= i < notes.len() && #[trigger] filename_spec(notes[i].title@) == k;
            if i < notes.len() - 1 {
                assert(prefix[i] == notes[i]);
                assert(filename_spec(prefix[i].title@) == k);
                assert(export_map(prefix).dom().contains(k));
            } else {
                assert(k == filename_spec(notes.last().title@));
            }
        }
    }
}

/// Every name an export writes ends in `.md`.
pub proof fn lemma_export_map_md(notes: Seq<Note>)
    ensures
        forall|k: Seq<char>|
            #[trigger] export_map(notes).dom().contains(k) ==> is_md_name(k),
{
    lemma_export_map_dom(notes);
    assert forall|k: Seq<char>|
        #[trigger] export_map(notes).dom().contains(k) implies is_md_name(k) by {
        let i = choose|i: int|
            0 <= i < notes.len() && #[trigger] filename_spec(notes[i].title@) == k;
        lemma_filename_is_md(notes[i].title@);
    }
}

/// Law: the `.md` contents of the sync directory after an export are a pure
/// function of the exported collection — whatever the directory held before,
/// its `.md` entries afterwards are exactly the export of `notes`.
pub proof fn lemma_export_md_state(dir: Map<Seq<char>, Seq<char>>, notes: Seq<Note>)
    ensures
        after_export(dir, notes).restrict(md_names()) == export_map(notes),
{
    lemma_export_map_md(notes);
    assert(after_export(dir, notes).restrict(md_names()) =~= export_map(notes));
}

/// Law: exporting the same collection twice leaves the directory exactly as
/// one export leaves it.
pub proof fn lemma_export_idempotent(dir: Map<Seq<char>, Seq<char>>, notes: Seq<Note>)
    ensures
        after_export(after_export(dir, notes), notes) == after_export(dir, notes),
{
    lemma_export_map_md(notes);
    let once = after_export(dir, notes);
    assert(once.remove_keys(md_names()) =~= dir.remove_keys(md_names()));
    assert(after_export(once, notes) =~= once);
}

/// Law: exporting collection `a` and then collection `b` leaves no file of
/// `a` behind, provided no title of `a` and no title of `b` sanitize to the
/// same file name.
pub proof fn lemma_export_staleness(
    dir: Map<Seq<char>, Seq<char>>,
    a: Seq<Note>,
    b: Seq<Note>,
)
    requires
        forall|i: int, j: int|
            0 <= i < a.len() && 0 <= j < b.len() ==> #[trigger] filename_spec(a[i].title@)
                != #[trigger] filename_spec(b[j].title@),
    ensures
        forall|k: Seq<char>|
            #[trigger] export_map(a).dom().contains(k) ==> !after_export(
                after_export(dir, a),
                b,
            ).dom().contains(k),
{
    lemma_export_map_dom(a);
    lemma_export_map_dom(b);
    lemma_export_map_md(a);
    assert forall|k: Seq<char>| #[trigger] export_map(a).dom().contains(k) implies !after_export(
        after_export(dir, a),
        b,
    ).dom().contains(k) by {
        let i = choose|i: int| 0 <= i < a.len() && #[trigger] filename_spec(a[i].title@) == k;
        if export_map(b).dom().contains(k) {
            let j = choose|j: int|
                0 <= j < b.len() && #[trigger] filename_spec(b[j].title@) == k;
            assert(filename_spec(a[i].title@) != filename_spec(b[j].title@));
        }
    }
}

/// The position of the note that determines a file's final content: the
/// last note in input order whose title maps to `k`.
pub open spec fn last_writer(notes: Seq<Note>, k: Seq<char>) -> int
    decreases notes.len(),
{
    if notes.len() == 0 {
        -1
    } else if filename_spec(notes.last().title@) == k {
        notes.len() - 1
    } else {
        last_writer(notes.drop_last(), k)
    }
}

/// Law: when an export writes a name at all, the file holds the rendering
/// of the last note in input order whose title maps to that name.
pub proof fn lemma_last_writer_wins(notes: Seq<Note>, k: Seq<char>)
    requires
        export_map(notes).dom().contains(k),
    ensures
        0 <= last_writer(notes, k) < notes.len(),
        filename_spec(notes[last_writer(notes, k)].title@) == k,
        export_map(notes)[k] == render_spec(notes[last_writer(notes, k)]),
        forall|i: int|
            last_writer(notes, k) < i < notes.len() ==> #[trigger] filename_spec(
                notes[i].title@,
            ) != k,
    decreases notes.len(),
{
    lemma_export_map_dom(notes);
    let prefix = notes.drop_last();
    if filename_spec(notes.last().title@) == k {
        assert(export_map(notes)[k] == render_spec(notes.last()));
    } else {
        assert(export_map(notes.drop_last()).dom().contains(k));
        lemma_last_writer_wins(prefix, k);
        assert(last_writer(notes, k) == last_writer(prefix, k));
        assert(notes[last_writer(notes, k)] == prefix[last_writer(prefix, k)]);
        assert forall|i: int|
            last_writer(notes, k) < i < notes.len() implies #[trigger] filename_spec(
            notes[i].title@,
        ) != k by {
            if i < notes.len() - 1 {
                assert(prefix[i] == notes[i]);
                assert(filename_spec(prefix[i].title@) != k);
            }
        }
    }
}

/// Law: a collection whose titles all map to one file name yields exactly
/// one file, holding the rendering of the last note in input order.
pub proof fn lemma_export_collision(notes: Seq<Note>, k: Seq<char>)
    requires
        notes.len() > 0,
        forall|i: int|
            0 <= i < notes.len() ==> #[trigger] filename_spec(notes[i].title@) == k,
    ensures
        export_map(notes).dom() == set![k],
        export_map(notes)[k] == render_spec(notes.last()),
{
    lemma_export_map_dom(notes);
    assert(filename_spec(notes[notes.len() - 1].title@) == k);
    assert(export_map(notes).dom() =~= set![k]);
    lemma_last_writer_wins(notes, k);
    assert(last_writer(notes, k) == notes.len() - 1);
}

} // verus!
