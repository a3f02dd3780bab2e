//! The data area: the saves, and the files that are kept from one run of an
//! instance to the next, with their older generations.

use crate::error::ServerError;
use crate::paths::RelPath;
use crate::text::{chain, decimal, decimal_string, lemma_decimal_digits};
use vstd::prelude::*;
use vstd::string::*;

verus! {

broadcast use vstd::string::group_string_axioms;

/// The directories of the data area.
#[derive(Debug)]
pub struct Data {
    root_path: RelPath,
    saves_path: RelPath,
    files_path: RelPath,
}

/// One change to the files of a rotation.
#[derive(Debug, PartialEq, Eq)]
pub enum FileOp {
    /// Delete the file.
    Remove(RelPath),
    /// Rename the file, replacing what the new name held.
    Rename { from: RelPath, to: RelPath },
}

/// A change to the files of a rotation, as plain values.
pub enum FileOpView {
    Remove(Seq<Seq<char>>),
    Rename { from: Seq<Seq<char>>, to: Seq<Seq<char>> },
}

impl View for FileOp {
    type V = FileOpView;

    open spec fn view(&self) -> FileOpView {
        match *self {
            FileOp::Remove(path) => FileOpView::Remove(path@),
            FileOp::Rename { from, to } => FileOpView::Rename { from: from@, to: to@ },
        }
    }
}

/// The views of a list of changes.
pub open spec fn op_views(ops: Seq<FileOp>) -> Seq<FileOpView> {
    ops.map_values(|op: FileOp| op@)
}

/// One step of a rotation, by generation.
pub enum RotationStep {
    /// Delete generation `k`.
    Remove(nat),
    /// Make generation `k` generation `k + 1`.
    Shift(nat),
    /// Make the file itself generation 0.
    Retire,
}

/// A file and its older generations, each with what it holds.
pub struct Shelf {
    /// The file itself, if it exists.
    pub current: Option<Seq<u8>>,
    /// The generations that exist, by number.
    pub generations: Map<nat, Seq<u8>>,
}

/// The shelf after one step. A step whose source does not exist changes
/// nothing.
pub open spec fn after_step(shelf: Shelf, step: RotationStep) -> Shelf {
    match step {
        RotationStep::Remove(k) => Shelf { generations: shelf.generations.remove(k), ..shelf },
        RotationStep::Shift(k) => if shelf.generations.contains_key(k) {
            Shelf {
                generations: shelf.generations.remove(k).insert(k + 1, shelf.generations[k]),
                ..shelf
            }
        } else {
            shelf
        },
        RotationStep::Retire => match shelf.current {
            Some(contents) => Shelf {
                current: None,
                generations: shelf.generations.insert(0, contents),
            },
            None => shelf,
        },
    }
}

/// The shelf after the steps, first to last.
pub open spec fn after_steps(shelf: Shelf, steps: Seq<RotationStep>) -> Shelf
    decreases steps.len(),
{
    if steps.len() == 0 {
        shelf
    } else {
        after_step(after_steps(shelf, steps.drop_last()), steps.last())
    }
}

/// Whether generation `k` is recorded as present.
pub open spec fn present_at(present: Seq<bool>, k: nat) -> bool {
    k < present.len() && present[k as int]
}

/// The shifts of the generations `from` to `below - 1` that are present,
/// highest first.
pub open spec fn shifts(present: Seq<bool>, from: nat, below: nat) -> Seq<RotationStep>
    decreases below,
{
    if below <= from {
        Seq::empty()
    } else {
        let k = (below - 1) as nat;
        (if present_at(present, k) {
            seq![RotationStep::Shift(k)]
        } else {
            Seq::empty()
        }) + shifts(present, from, k)
    }
}

/// The rotation of the generations `from` to `end`: generation `end` is
/// deleted, then each generation below it is moved up by one, highest
/// first. Generations that are not there are passed over.
pub open spec fn generation_steps(present: Seq<bool>, from: nat, end: nat) -> Seq<RotationStep> {
    (if present_at(present, end) {
        seq![RotationStep::Remove(end)]
    } else {
        Seq::empty()
    }) + shifts(present, from, end)
}

/// The rotation of a file with up to `amount + 1` older generations: the
/// generations are rotated, then the file becomes generation 0.
pub open spec fn rotation_steps(present: Seq<bool>, amount: nat) -> Seq<RotationStep> {
    generation_steps(present, 0, amount).push(RotationStep::Retire)
}

/// The name of generation `num` of a file: the file's name, a dot, and the
/// number.
pub open spec fn file_add_number_spec(file: Seq<Seq<char>>, num: nat) -> Seq<Seq<char>> {
    if file.len() == 0 {
        seq!["."@ + decimal(num)]
    } else {
        file.drop_last().push(file.last() + "."@ + decimal(num))
    }
}

/// What a step of a rotation does to the files.
pub open spec fn step_op(file: Seq<Seq<char>>, step: RotationStep) -> FileOpView {
    match step {
        RotationStep::Remove(k) => FileOpView::Remove(file_add_number_spec(file, k)),
        RotationStep::Shift(k) => FileOpView::Rename {
            from: file_add_number_spec(file, k),
            to: file_add_number_spec(file, k + 1),
        },
        RotationStep::Retire => FileOpView::Rename {
            from: file,
            to: file_add_number_spec(file, 0),
        },
    }
}

/// What the steps of a rotation do to the files.
pub open spec fn step_ops(file: Seq<Seq<char>>, steps: Seq<RotationStep>) -> Seq<FileOpView> {
    steps.map_values(|step: RotationStep| step_op(file, step))
}

fn push_op(ops: &mut Vec<FileOp>, op: FileOp)
    ensures
        op_views(final(ops)@) == op_views(old(ops)@).push(op@),
{
    ops.push(op);
    assert(op_views(ops@) =~= op_views(old(ops)@).push(op@));
}

impl Data {
    /// The root of the data area.
    pub closed spec fn root(&self) -> Seq<Seq<char>> {
        self.root_path@
    }

    /// The directories are where they belong below the root.
    #[verifier::type_invariant]
    pub closed spec fn wf(&self) -> bool {
        &&& self.saves_path@ == self.root_path@.push("saves"@)
        &&& self.files_path@ == self.root_path@.push("files"@)
    }

    /// The data area below `root_path`.
    pub fn new(root_path: RelPath) -> (data: Self)
        ensures
            data.root() == root_path@,
    {
        let saves_path = root_path.join("saves");
        let files_path = root_path.join("files");
        Data { root_path, saves_path, files_path }
    }

    /// The directories that have to exist: the root, the saves, the files.
    pub fn directories(&self) -> (dirs: Vec<RelPath>)
        ensures
            dirs@.len() == 3,
            dirs@[0]@ == self.root(),
            dirs@[1]@ == self.root().push("saves"@),
            dirs@[2]@ == self.root().push("files"@),
    {
        proof {
            use_type_invariant(self);
        }
        let mut dirs: Vec<RelPath> = Vec::new();
        dirs.push(self.root_path.clone());
        dirs.push(self.saves_path.clone());
        dirs.push(self.files_path.clone());
        dirs
    }

    /// Where the save `name` lies.
    pub fn saves_folder(&self, name: &str) -> (path: RelPath)
        ensures
            path@ == self.root().push("saves"@).push(name@),
    {
        proof {
            use_type_invariant(self);
        }
        self.saves_path.join(name)
    }

    /// The directory of the save `name`, given whether it exists. Saves are
    /// put there by others: a save that is not there is refused.
    pub fn get_saves_folder(&self, name: &str, exists: bool) -> (r: Result<RelPath, ServerError>)
        ensures
            exists ==> (r matches Ok(path) && path@ == self.root().push("saves"@).push(name@)),
            !exists ==> (r matches Err(ServerError::NotAllowed(text)) && text@
                == "Save folder not found"@),
    {
        if !exists {
            return Err(ServerError::NotAllowed(String::from_str("Save folder not found")));
        }
        Ok(self.saves_folder(name))
    }

    /// The directory of the files kept for an instance.
    pub fn instance_files(&self, instance_name: &str) -> (path: RelPath)
        ensures
            path@ == self.root().push("files"@).push(instance_name@),
    {
        proof {
            use_type_invariant(self);
        }
        self.files_path.join(instance_name)
    }

    /// Where the file `file_name` of an instance is kept.
    pub fn get_file(&self, instance_name: &str, file_name: &str) -> (path: RelPath)
        ensures
            path@ == self.root().push("files"@).push(instance_name@).push(file_name@),
    {
        proof {
            use_type_invariant(self);
        }
        self.files_path.join(instance_name).join(file_name)
    }

    /// The name of generation `num` of `file`.
    pub fn file_add_number(file: &RelPath, num: u8) -> (path: RelPath)
        ensures
            path@ == file_add_number_spec(file@, num as nat),
    {
        let number = decimal_string(num as u64);
        match (file.parent(), file.file_name()) {
            (Some(parent), Some(name)) => {
                let mut numbered = chain(name.as_str(), ".");
                numbered.append(number.as_str());
                parent.join(numbered.as_str())
            },
            _ => {
                let path = RelPath::new().join(chain(".", number.as_str()).as_str());
                assert(path@ =~= file_add_number_spec(file@, num as nat));
                path
            },
        }
    }

    /// The changes that rotate the generations `num` to `end` of `file`,
    /// where `present[k]` says whether generation `k` exists; a generation
    /// that `present` does not reach counts as absent.
    pub fn rotate_file(file: &RelPath, present: &Vec<bool>, num: u8, end: u8) -> (ops: Vec<FileOp>)
        ensures
            op_views(ops@) == step_ops(file@, generation_steps(present@, num as nat, end as nat)),
    {
        let mut ops: Vec<FileOp> = Vec::new();
        let ghost mut steps: Seq<RotationStep> = Seq::empty();
        assert(op_views(ops@) =~= step_ops(file@, steps));
        if (end as usize) < present.len() && present[end as usize] {
            push_op(&mut ops, FileOp::Remove(Self::file_add_number(file, end)));
            proof {
                steps = steps.push(RotationStep::Remove(end as nat));
            }
            assert(op_views(ops@) =~= step_ops(file@, steps));
        }
        let ghost head = steps;
        assert(head + Seq::<RotationStep>::empty() =~= head);
        let mut k: u8 = end;
        while k > num
            invariant
                k <= end,
                op_views(ops@) == step_ops(file@, steps),
                steps + shifts(present@, num as nat, k as nat) == head + shifts(
                    present@,
                    num as nat,
                    end as nat,
                ),
            decreases k,
        {
            let ghost rest = shifts(present@, num as nat, k as nat);
            k = k - 1;
            if (k as usize) < present.len() && present[k as usize] {
                push_op(
                    &mut ops,
                    FileOp::Rename {
                        from: Self::file_add_number(file, k),
                        to: Self::file_add_number(file, k + 1),
                    },
                );
                proof {
                    let before = steps;
                    steps = steps.push(RotationStep::Shift(k as nat));
                    assert(steps + shifts(present@, num as nat, k as nat) =~= before + rest);
                }
                assert(op_views(ops@) =~= step_ops(file@, steps));
            } else {
                assert(steps + shifts(present@, num as nat, k as nat) =~= steps + rest);
            }
        }
        assert(steps + Seq::<RotationStep>::empty() =~= steps);
        ops
    }

    /// Where the file `file_name` of an instance is kept, and the changes
    /// that free that place: if the file exists and is not empty (`size`
    /// holds its size, `None` where it does not exist), its generations are
    /// rotated and it becomes generation 0; else nothing is done.
    pub fn get_and_rotate_file(
        &self,
        instance_name: &str,
        file_name: &str,
        amount: u8,
        size: Option<u64>,
        present: &Vec<bool>,
    ) -> (r: (RelPath, Vec<FileOp>))
        ensures
            r.0@ == self.root().push("files"@).push(instance_name@).push(file_name@),
            op_views(r.1@) == if size is Some && size->0 != 0 {
                step_ops(r.0@, rotation_steps(present@, amount as nat))
            } else {
                Seq::empty()
            },
    {
        let file_path = self.get_file(instance_name, file_name);
        let rotate = match size {
            Some(size) => size != 0,
            None => false,
        };
        if rotate {
            let mut ops = Self::rotate_file(&file_path, present, 0, amount);
            push_op(
                &mut ops,
                FileOp::Rename { from: file_path.clone(), to: Self::file_add_number(&file_path, 0) },
            );
            assert(op_views(ops@) =~= step_ops(
                file_path@,
                rotation_steps(present@, amount as nat),
            ));
            (file_path, ops)
        } else {
            let ops: Vec<FileOp> = Vec::new();
            assert(op_views(ops@) =~= Seq::<FileOpView>::empty());
            (file_path, ops)
        }
    }
}

/// Doing one list of steps and then another is doing the two in a row.
pub proof fn lemma_after_steps_concat(
    shelf: Shelf,
    first: Seq<RotationStep>,
    second: Seq<RotationStep>,
)
    ensures
        after_steps(shelf, first + second) == after_steps(after_steps(shelf, first), second),
    decreases second.len(),
{
    if second.len() == 0 {
        assert(first + second =~= first);
    } else {
        lemma_after_steps_concat(shelf, first, second.drop_last());
        assert((first + second).drop_last() =~= first + second.drop_last());
        assert((first + second).last() == second.last());
    }
}

/// A list of one step does that step.
pub proof fn lemma_after_single_step(shelf: Shelf, step: RotationStep)
    ensures
        after_steps(shelf, seq![step]) == after_step(shelf, step),
{
    let steps = seq![step];
    assert(steps.drop_last() =~= Seq::<RotationStep>::empty());
    assert(after_steps(shelf, steps.drop_last()) == shelf);
    assert(steps.last() == step);
}

/// Generation `k` is the same in both: there or not, and with the same contents.
pub open spec fn same_generation(a: Map<nat, Seq<u8>>, b: Map<nat, Seq<u8>>, k: nat) -> bool {
    a.contains_key(k) == b.contains_key(k) && (a.contains_key(k) ==> a[k] == b[k])
}

/// Generation `k` of `now` is what generation `k - 1` of `before` was.
pub open spec fn moved_up(before: Map<nat, Seq<u8>>, now: Map<nat, Seq<u8>>, k: nat) -> bool {
    k >= 1 && now.contains_key(k) == before.contains_key((k - 1) as nat) && (now.contains_key(k)
        ==> now[k] == before[(k - 1) as nat])
}

/// Where a rotation stands when the generations above `hole` have been
/// moved: those up to `amount` hold what the one below them held, `hole` is
/// free, and all else is as it was.
pub open spec fn rotated_above(
    before: Map<nat, Seq<u8>>,
    now: Map<nat, Seq<u8>>,
    amount: nat,
    hole: nat,
) -> bool {
    &&& hole <= amount
    &&& !now.contains_key(hole)
    &&& forall|k: nat| k > amount ==> same_generation(before, now, k)
    &&& forall|k: nat| hole < k <= amount ==> moved_up(before, now, k)
    &&& forall|k: nat| k < hole ==> same_generation(before, now, k)
}

proof fn lemma_shifts_move_the_hole(
    before: Map<nat, Seq<u8>>,
    shelf: Shelf,
    present: Seq<bool>,
    amount: nat,
    hole: nat,
)
    requires
        rotated_above(before, shelf.generations, amount, hole),
        forall|k: nat| k <= amount ==> present_at(present, k) == before.contains_key(k),
    ensures
        rotated_above(
            before,
            after_steps(shelf, shifts(present, 0, hole)).generations,
            amount,
            0,
        ),
        after_steps(shelf, shifts(present, 0, hole)).current == shelf.current,
    decreases hole,
{
    if hole > 0 {
        let k = (hole - 1) as nat;
        let rest = shifts(present, 0, k);
        assert(same_generation(before, shelf.generations, k));
        if present_at(present, k) {
            let step = RotationStep::Shift(k);
            let next = after_step(shelf, step);
            lemma_after_single_step(shelf, step);
            lemma_after_steps_concat(shelf, seq![step], rest);
            assert(rotated_above(before, next.generations, amount, k)) by {
                assert forall|j: nat| k < j <= amount implies moved_up(
                    before,
                    next.generations,
                    j,
                ) by {
                    if j > hole {
                        assert(moved_up(before, shelf.generations, j));
                    }
                }
                assert forall|j: nat| j < k implies same_generation(
                    before,
                    next.generations,
                    j,
                ) by {
                    assert(same_generation(before, shelf.generations, j));
                }
                assert forall|j: nat| j > amount implies same_generation(
                    before,
                    next.generations,
                    j,
                ) by {
                    assert(same_generation(before, shelf.generations, j));
                }
            }
            lemma_shifts_move_the_hole(before, next, present, amount, k);
        } else {
            assert(Seq::<RotationStep>::empty() + rest =~= rest);
            assert(rotated_above(before, shelf.generations, amount, k)) by {
                assert forall|j: nat| k < j <= amount implies moved_up(
                    before,
                    shelf.generations,
                    j,
                ) by {
                    if j > hole {
                        assert(moved_up(before, shelf.generations, j));
                    }
                }
                assert forall|j: nat| j < k implies same_generation(
                    before,
                    shelf.generations,
                    j,
                ) by {
                    assert(same_generation(before, shelf.generations, j));
                }
            }
            lemma_shifts_move_the_hole(before, shelf, present, amount, k);
        }
    }
}

/// What a rotation leaves behind. If the file exists, and `present` says
/// of each generation up to `amount` whether it exists, then afterwards the
/// file is gone, generation 0 holds what the file held, each generation from
/// 1 to `amount` holds what the one below it held (and is absent where that
/// one was), and the generations beyond `amount` are as they were.
pub proof fn lemma_rotation(shelf: Shelf, present: Seq<bool>, amount: nat)
    requires
        shelf.current is Some,
        forall|k: nat| k <= amount ==> present_at(present, k) == shelf.generations.contains_key(k),
    ensures
        ({
            let after = after_steps(shelf, rotation_steps(present, amount));
            &&& after.current is None
            &&& after.generations.contains_key(0)
            &&& after.generations[0] == shelf.current->0
            &&& forall|k: nat| 1 <= k <= amount ==> moved_up(shelf.generations, after.generations, k)
            &&& forall|k: nat| k > amount ==> same_generation(shelf.generations, after.generations, k)
        }),
{
    let before = shelf.generations;
    let removal = if present_at(present, amount) {
        seq![RotationStep::Remove(amount)]
    } else {
        Seq::<RotationStep>::empty()
    };
    let moves = shifts(present, 0, amount);
    let cleared = after_steps(shelf, removal);
    assert(cleared.current == shelf.current && rotated_above(
        before,
        cleared.generations,
        amount,
        amount,
    )) by {
        if present_at(present, amount) {
            lemma_after_single_step(shelf, RotationStep::Remove(amount));
        }
    }
    lemma_shifts_move_the_hole(before, cleared, present, amount, amount);
    lemma_after_steps_concat(shelf, removal, moves);
    let moved = after_steps(shelf, removal + moves);
    let steps = rotation_steps(present, amount);
    assert(steps.drop_last() =~= removal + moves);
    let after = after_steps(shelf, steps);
    assert(after == after_step(moved, RotationStep::Retire));
    assert forall|k: nat| 1 <= k <= amount implies moved_up(before, after.generations, k) by {
        assert(moved_up(before, moved.generations, k));
    }
    assert forall|k: nat| k > amount implies same_generation(before, after.generations, k) by {
        assert(same_generation(before, moved.generations, k));
    }
}

/// After a rotation no generation beyond `amount` exists, if none did before.
pub proof fn lemma_rotation_keeps_the_limit(shelf: Shelf, present: Seq<bool>, amount: nat)
    requires
        shelf.current is Some,
        forall|k: nat| k <= amount ==> present_at(present, k) == shelf.generations.contains_key(k),
        forall|k: nat| k > amount ==> !shelf.generations.contains_key(k),
    ensures
        forall|k: nat|
            k > amount ==> !after_steps(
                shelf,
                rotation_steps(present, amount),
            ).generations.contains_key(k),
{
    lemma_rotation(shelf, present, amount);
    let after = after_steps(shelf, rotation_steps(present, amount));
    assert forall|k: nat| k > amount implies !after.generations.contains_key(k) by {
        assert(same_generation(shelf.generations, after.generations, k));
    }
}

/// Two generations of a file have different names, and none has the name
/// of the file itself.
pub proof fn lemma_generation_names_differ(file: Seq<Seq<char>>, a: nat, b: nat)
    requires
        a != b,
    ensures
        file_add_number_spec(file, a) != file_add_number_spec(file, b),
        file_add_number_spec(file, a) != file,
{
    lemma_decimal_digits(a);
    lemma_decimal_digits(b);
    let name_a = file_add_number_spec(file, a).last();
    let name_b = file_add_number_spec(file, b).last();
    let stem = if file.len() == 0 {
        "."@
    } else {
        file.last() + "."@
    };
    assert(name_a =~= stem + decimal(a));
    assert(name_b =~= stem + decimal(b));
    if name_a == name_b {
        assert(decimal(a) =~= name_a.skip(stem.len() as int));
        assert(decimal(b) =~= name_b.skip(stem.len() as int));
    }
    if file.len() > 0 {
        reveal_strlit(".");
        assert(name_a.len() > file.last().len());
    }
}

} // verus!
