//! The archive of finished games.
//!
//! The archive keeps every finished game in memory, in the order the games
//! finished, and counts how many of them have been written to disk. Writing
//! is done by the embedding application, which hands the library each line
//! of an existing archive and the outcome of reading it back.
use vstd::prelude::*;

verus! {

/// One finished game as it is archived.
#[derive(Debug, Clone, PartialEq, Eq)]
pub struct GameRecord {
    pub id: u64,
    pub white_player: String,
    pub black_player: String,
    pub result: String,
    pub reason: String,
    pub moves: Vec<String>,
    pub final_fen: String,
    pub timestamp: u64,
}

pub open spec fn ids_of(rs: Seq<GameRecord>) -> Seq<u64> {
    rs.map_values(|r: GameRecord| r.id)
}

/// The highest game ID of an archive (0 when it is empty).
pub open spec fn max_id(rs: Seq<GameRecord>) -> u64
    decreases rs.len(),
{
    if rs.len() == 0 {
        0
    } else {
        let m = max_id(rs.drop_last());
        if rs.last().id > m {
            rs.last().id
        } else {
            m
        }
    }
}

/// The ID the next game should take: one above the highest archived ID,
/// 1 for an empty archive, and `u64::MAX` when the archive already holds it.
pub open spec fn spec_next_id(rs: Seq<GameRecord>) -> u64 {
    if rs.len() == 0 {
        1
    } else if max_id(rs) == u64::MAX {
        u64::MAX
    } else {
        (max_id(rs) + 1) as u64
    }
}

proof fn lemma_max_id_bounds(rs: Seq<GameRecord>)
    ensures
        forall|i: int| 0 <= i < rs.len() ==> (#[trigger] rs[i]).id <= max_id(rs),
        rs.len() > 0 ==> exists|i: int| 0 <= i < rs.len() && (#[trigger] rs[i]).id == max_id(rs),
    decreases rs.len(),
{
    if rs.len() > 0 {
        let p = rs.drop_last();
        lemma_max_id_bounds(p);
        assert forall|i: int| 0 <= i < rs.len() implies (#[trigger] rs[i]).id <= max_id(rs) by {
            if i < rs.len() - 1 {
                assert(rs[i] == p[i]);
            }
        }
        if rs.last().id <= max_id(p) && p.len() > 0 {
            let k = choose|k: int| 0 <= k < p.len() && (#[trigger] p[k]).id == max_id(p);
            assert(rs[k] == p[k]);
        }
    }
}

/// Every archived ID is below the next ID, unless the highest possible ID is
/// already taken.
pub proof fn lemma_next_id_above_all(rs: Seq<GameRecord>)
    requires
        max_id(rs) < u64::MAX,
    ensures
        forall|i: int| 0 <= i < rs.len() ==> (#[trigger] rs[i]).id < spec_next_id(rs),
        spec_next_id(rs) >= 1,
{
    lemma_max_id_bounds(rs);
}

/// The finished games, oldest first, and how many of them are on disk.
pub struct GameHistory {
    records: Vec<GameRecord>,
    persisted: usize,
}

impl GameHistory {
    pub closed spec fn records(&self) -> Seq<GameRecord> {
        self.records@
    }

    /// How many records, from the first, have been written to disk.
    pub closed spec fn persisted(&self) -> nat {
        self.persisted as nat
    }

    /// No two records share an ID, and no more records are on disk than exist.
    pub open spec fn wf(&self) -> bool {
        &&& ids_of(self.records()).no_duplicates()
        &&& self.persisted() <= self.records().len()
    }

    /// An empty archive kept in memory only.
    pub fn new() -> (h: GameHistory)
        ensures
            h.wf(),
            h.records() == Seq::<GameRecord>::empty(),
            h.persisted() == 0,
    {
        let h = GameHistory { records: Vec::new(), persisted: 0 };
        proof {
            assert(ids_of(h.records()) =~= Seq::<u64>::empty());
        }
        h
    }

    fn contains_id(&self, id: u64) -> (b: bool)
        ensures
            b == ids_of(self.records()).contains(id),
    {
        let mut i: usize = 0;
        while i < self.records.len()
            invariant
                i <= self.records@.len(),
                forall|k: int| 0 <= k < i ==> self.records@[k].id != id,
            decreases self.records@.len() - i,
        {
            if self.records[i].id == id {
                proof {
                    assert(ids_of(self.records())[i as int] == id);
                }
                return true;
            }
            i = i + 1;
        }
        proof {
            if ids_of(self.records()).contains(id) {
                let k = choose|k: int| 0 <= k < ids_of(self.records()).len() && ids_of(self.records())[k] == id;
                assert(self.records@[k].id == id);
            }
        }
        false
    }

    /// Archives a finished game; a record whose ID is already archived is
    /// refused. The record waits in memory until it is written to disk.
    pub fn add_record(&mut self, record: GameRecord) -> (r: Result<(), String>)
        requires
            old(self).wf(),
        ensures
            final(self).wf(),
            final(self).persisted() == old(self).persisted(),
            ids_of(old(self).records()).contains(record.id) ==> (r matches Err(e) && e@ == "Duplicate game ID"@)
                && final(self).records() == old(self).records(),
            !ids_of(old(self).records()).contains(record.id) ==> r is Ok && final(self).records()
                == old(self).records().push(record),
    {
        if self.contains_id(record.id) {
            return Err(String::from_str("Duplicate game ID"));
        }
        let ghost old_ids = ids_of(self.records());
        let ghost rec = record;
        self.records.push(record);
        proof {
            assert(ids_of(self.records()) =~= old_ids.push(rec.id));
        }
        Ok(())
    }

    /// The records that still have to be written to disk, oldest first.
    pub fn pending_records(&self) -> (p: &[GameRecord])
        requires
            self.wf(),
        ensures
            p@ == self.records().skip(self.persisted() as int),
    {
        slice_from(self.records.as_slice(), self.persisted)
    }

    /// Notes that the oldest pending record has been written to disk.
    pub fn mark_persisted(&mut self)
        requires
            old(self).wf(),
        ensures
            final(self).wf(),
            final(self).records() == old(self).records(),
            final(self).persisted() == if old(self).persisted() < old(self).records().len() {
                old(self).persisted() + 1
            } else {
                old(self).persisted()
            },
    {
        if self.persisted < self.records.len() {
            self.persisted = self.persisted + 1;
        }
    }

    /// The ID the next game should take: one above the highest archived ID.
    pub fn next_id(&self) -> (id: u64)
        ensures
            id == spec_next_id(self.records()),
    {
        let mut best: u64 = 0;
        let mut i: usize = 0;
        while i < self.records.len()
            invariant
                i <= self.records@.len(),
                best == max_id(self.records@.take(i as int)),
            decreases self.records@.len() - i,
        {
            proof {
                assert(self.records@.take(i + 1).drop_last() =~= self.records@.take(i as int));
            }
            if self.records[i].id > best {
                best = self.records[i].id;
            }
            i = i + 1;
        }
        proof {
            assert(self.records@.take(self.records@.len() as int) =~= self.records@);
        }
        if self.records.len() == 0 {
            1
        } else if best == u64::MAX {
            u64::MAX
        } else {
            best + 1
        }
    }

    /// All records, oldest first.
    pub fn get_records(&self) -> (rs: &[GameRecord])
        ensures
            rs@ == self.records(),
    {
        self.records.as_slice()
    }

    /// The records of the games a player took part in, oldest first.
    pub fn get_player_games(&self, player: &str) -> (games: Vec<&GameRecord>)
        ensures
            games@.len() <= self.records().len(),
            forall|i: int| 0 <= i < games@.len() ==> self.records().contains(*(#[trigger] games@[i])),
            forall|i: int| 0 <= i < games@.len() ==> ((#[trigger] games@[i]).white_player@ == player@
                || games@[i].black_player@ == player@),
            forall|i: int| 0 <= i < self.records().len() && (self.records()[i].white_player@ == player@
                || self.records()[i].black_player@ == player@) ==> games@.contains(&self.records()[i]),
    {
        let mut games: Vec<&GameRecord> = Vec::new();
        let name = String::from_str(player);
        let mut i: usize = 0;
        while i < self.records.len()
            invariant
                name@ == player@,
                i <= self.records@.len(),
                games@.len() <= i,
                forall|k: int| 0 <= k < games@.len() ==> self.records@.contains(*(#[trigger] games@[k])),
                forall|k: int| 0 <= k < games@.len() ==> ((#[trigger] games@[k]).white_player@ == player@
                    || games@[k].black_player@ == player@),
                forall|k: int| 0 <= k < i && (self.records@[k].white_player@ == player@
                    || self.records@[k].black_player@ == player@) ==> games@.contains(&self.records@[k]),
            decreases self.records@.len() - i,
        {
            let r = &self.records[i];
            let ghost before = games@;
            let hit = r.white_player.eq(&name) || r.black_player.eq(&name);
            if hit {
                games.push(r);
                proof {
                    assert(games@[games@.len() - 1] == r);
                }
            }
            proof {
                assert forall|k: int| 0 <= k < i + 1 && (self.records@[k].white_player@ == player@
                    || self.records@[k].black_player@ == player@) implies games@.contains(
                    &self.records@[k],
                ) by {
                    if k < i {
                        let j = choose|j: int| 0 <= j < before.len() && before[j] == &self.records@[k];
                        assert(games@[j] == before[j]);
                    } else {
                        assert(hit);
                        assert(games@[games@.len() - 1] == r);
                    }
                }
            }
            i = i + 1;
        }
        games
    }
}

fn slice_from(s: &[GameRecord], from: usize) -> (r: &[GameRecord])
    requires
        from <= s@.len(),
    ensures
        r@ == s@.skip(from as int),
{
    let r = vstd::slice::slice_subrange(s, from, s.len());
    proof {
        assert(r@ =~= s@.skip(from as int));
    }
    r
}

/// How reading one line of an archive file went.
pub struct LineRead {
    /// Length of the line in bytes, its newline included.
    pub len: usize,
    pub ends_with_newline: bool,
    /// The record the line holds, or why it could not be read.
    pub record: Result<GameRecord, String>,
}

/// Why an archive file cannot be taken over.
pub enum LoadError {
    /// Two complete lines hold games with the same ID.
    Duplicate,
    /// A complete line does not hold a record.
    Corrupt(String),
}

/// How to take over an archive file.
pub struct LoadPlan {
    /// The records read, all of them already on disk.
    pub history: GameHistory,
    /// Cut the file to this length: an unfinished last line is dropped.
    pub truncate_to: Option<usize>,
    /// Add a newline after a complete last record that lacks one.
    pub append_newline: bool,
}

/// The state after reading some lines: the records read, the bytes they
/// take, and whether an unfinished last line ended the reading.
pub open spec fn load_fold(lines: Seq<LineRead>) -> Result<(Seq<GameRecord>, nat, bool), Option<Seq<char>>>
    decreases lines.len(),
{
    if lines.len() == 0 {
        Ok((Seq::empty(), 0, false))
    } else {
        let line = lines.last();
        match load_fold(lines.drop_last()) {
            Err(e) => Err(e),
            Ok((rs, off, stopped)) => if stopped {
                Ok((rs, off, true))
            } else {
                match line.record {
                    Ok(r) => if ids_of(rs).contains(r.id) {
                        Err(None)
                    } else {
                        Ok((rs.push(r), (off + line.len) as nat, false))
                    },
                    Err(m) => if !line.ends_with_newline {
                        Ok((rs, off, true))
                    } else {
                        Err(Some(m@))
                    },
                }
            },
        }
    }
}

proof fn lemma_load_fold_ids(lines: Seq<LineRead>)
    requires
        load_fold(lines) is Ok,
    ensures
        ids_of(load_fold(lines)->Ok_0.0).no_duplicates(),
    decreases lines.len(),
{
    if lines.len() > 0 {
        lemma_load_fold_ids(lines.drop_last());
        let (rs, off, stopped) = load_fold(lines.drop_last())->Ok_0;
        if !stopped {
            if let Ok(r) = lines.last().record {
                if !ids_of(rs).contains(r.id) {
                    assert(ids_of(rs.push(r)) =~= ids_of(rs).push(r.id));
                }
            }
        }
    } else {
        assert(ids_of(Seq::<GameRecord>::empty()) =~= Seq::<u64>::empty());
    }
}

/// Total length in bytes of some lines.
pub open spec fn lines_len(lines: Seq<LineRead>) -> nat
    decreases lines.len(),
{
    if lines.len() == 0 {
        0
    } else {
        (lines_len(lines.drop_last()) + lines.last().len) as nat
    }
}

proof fn lemma_fold_offset(lines: Seq<LineRead>)
    requires
        load_fold(lines) is Ok,
    ensures
        load_fold(lines)->Ok_0.1 <= lines_len(lines),
    decreases lines.len(),
{
    if lines.len() > 0 {
        lemma_fold_offset(lines.drop_last());
    }
}

/// Decides how to take over an archive file of `data_len` bytes whose lines
/// have been read one by one.
///
/// Records are taken in order. An unfinished last line that does not hold a
/// record is the trace of an interrupted write: it is cut off. A complete line
/// that does not hold a record, or a repeated game ID, makes the file unusable.
pub fn plan_load(data_len: usize, mut lines: Vec<LineRead>) -> (r: Result<LoadPlan, LoadError>)
    requires
        lines_len(lines@) == data_len,
    ensures
        r is Ok <==> load_fold(lines@) is Ok,
        r matches Ok(plan) ==> {
            let (rs, off, stopped) = load_fold(lines@)->Ok_0;
            &&& plan.history.wf()
            &&& plan.history.records() == rs
            &&& plan.history.persisted() == rs.len()
            &&& plan.truncate_to == if stopped { Some(off as usize) } else { None::<usize> }
            &&& plan.append_newline == (!stopped && off == data_len && data_len > 0 && lines@.len() > 0
                && !lines@.last().ends_with_newline)
        },
        r matches Err(LoadError::Duplicate) ==> load_fold(lines@) == Err::<(Seq<GameRecord>, nat, bool), Option<Seq<char>>>(None),
        r matches Err(LoadError::Corrupt(m)) ==> load_fold(lines@) == Err::<(Seq<GameRecord>, nat, bool), Option<Seq<char>>>(Some(m@)),
{
    let ghost all = lines@;
    let n = lines.len();
    let last_open = n > 0 && !lines[n - 1].ends_with_newline;
    let mut history = GameHistory::new();
    let mut offset: usize = 0;
    let mut stopped = false;
    let mut failure: Option<LoadError> = None;
    let mut i: usize = 0;
    proof {
        assert(all.take(0) =~= Seq::<LineRead>::empty());
        assert(ids_of(history.records()) =~= Seq::<u64>::empty());
    }
    while i < n
        invariant
            n == all.len(),
            lines_len(all) == data_len,
            i <= n,
            failure is None ==> lines@ == all.skip(i as int),
            history.wf(),
            history.persisted() == history.records().len(),
            failure is None ==> load_fold(all.take(i as int)) == Ok::<
                (Seq<GameRecord>, nat, bool),
                Option<Seq<char>>,
            >((history.records(), offset as nat, stopped)),
            failure matches Some(LoadError::Duplicate) ==> load_fold(all) == Err::<
                (Seq<GameRecord>, nat, bool),
                Option<Seq<char>>,
            >(None),
            failure matches Some(LoadError::Corrupt(m)) ==> load_fold(all) == Err::<
                (Seq<GameRecord>, nat, bool),
                Option<Seq<char>>,
            >(Some(m@)),
            failure is Some ==> i == n,
        decreases n - i,
    {
        let line = lines.remove(0);
        proof {
            assert(line == all[i as int]);
            assert(lines@ =~= all.skip(i + 1));
            assert(all.take(i + 1).drop_last() =~= all.take(i as int));
            assert(all.take(i + 1).last() == all[i as int]);
        }
        if !stopped {
            match line.record {
                Ok(record) => {
                    if history.contains_id(record.id) {
                        proof {
                            assert(all[i as int].record == Ok::<GameRecord, String>(record));
                            assert(load_fold(all.take(i + 1)) == Err::<(Seq<GameRecord>, nat, bool), Option<Seq<char>>>(None));
                            lemma_fold_err_persists(all, i as int + 1);
                        }
                        failure = Some(LoadError::Duplicate);
                        i = n;
                    } else {
                        proof {
                            lemma_lines_len_prefix(all, i as int + 1);
                            lemma_fold_offset(all.take(i + 1));
                        }
                        assert(offset + line.len == load_fold(all.take(i + 1))->Ok_0.1);
                        let _ = history.add_record(record);
                        history.mark_persisted();
                        offset = offset + line.len;
                        i = i + 1;
                    }
                },
                Err(m) => {
                    if !line.ends_with_newline {
                        stopped = true;
                        i = i + 1;
                    } else {
                        proof {
                            assert(load_fold(all.take(i + 1)) == Err::<(Seq<GameRecord>, nat, bool), Option<Seq<char>>>(Some(m@)));
                            lemma_fold_err_persists(all, i as int + 1);
                        }
                        failure = Some(LoadError::Corrupt(m));
                        i = n;
                    }
                },
            }
        } else {
            i = i + 1;
        }
    }
    match failure {
        Some(e) => Err(e),
        None => {
            proof {
                assert(all.take(n as int) =~= all);
            }
            Ok(LoadPlan {
                history,
                truncate_to: if stopped { Some(offset) } else { None },
                append_newline: !stopped && offset == data_len && data_len > 0 && last_open,
            })
        },
    }
}

proof fn lemma_fold_err_persists(lines: Seq<LineRead>, k: int)
    requires
        0 <= k <= lines.len(),
        load_fold(lines.take(k)) is Err,
    ensures
        load_fold(lines) == load_fold(lines.take(k)),
    decreases lines.len() - k,
{
    if k < lines.len() {
        assert(lines.take(k + 1).drop_last() =~= lines.take(k));
        lemma_fold_err_persists(lines, k + 1);
    } else {
        assert(lines.take(k) =~= lines);
    }
}

proof fn lemma_lines_len_prefix(lines: Seq<LineRead>, k: int)
    requires
        0 <= k <= lines.len(),
    ensures
        lines_len(lines.take(k)) <= lines_len(lines),
    decreases lines.len() - k,
{
    if k < lines.len() {
        lemma_lines_len_prefix(lines, k + 1);
        assert(lines.take(k + 1).drop_last() =~= lines.take(k));
    } else {
        assert(lines.take(k) =~= lines);
    }
}

/// `segs` cuts `data` into lines: consecutive, non-empty ranges that cover it,
/// each ending just after a newline except possibly the last, with no newline
/// inside.
pub open spec fn is_line_split(data: Seq<u8>, segs: Seq<(usize, usize)>) -> bool {
    &&& (data.len() == 0 <==> segs.len() == 0)
    &&& segs.len() > 0 ==> segs[0].0 == 0 && segs.last().1 == data.len()
    &&& forall|k: int| 0 <= k < segs.len() ==> (#[trigger] segs[k]).0 < segs[k].1 <= data.len()
    &&& forall|k: int|
        0 <= k < segs.len() - 1 ==> (#[trigger] segs[k]).1 == segs[k + 1].0 && data[segs[k].1 - 1]
            == 10
    &&& forall|k: int, j: int|
        #![trigger segs[k], data[j]]
        0 <= k < segs.len() && segs[k].0 <= j < segs[k].1 - 1 ==> data[j] != 10
}

/// Cuts archive data into lines, each with its newline (as `split_inclusive`).
#[verifier::spinoff_prover]
#[verifier::rlimit(30)]
pub fn split_lines(data: &[u8]) -> (segs: Vec<(usize, usize)>)
    ensures
        is_line_split(data@, segs@),
{
    let mut segs: Vec<(usize, usize)> = Vec::new();
    let mut start: usize = 0;
    let mut i: usize = 0;
    while i < data.len()
        invariant
            start <= i <= data@.len(),
            segs@.len() == 0 ==> start == 0,
            segs@.len() > 0 ==> segs@[0].0 == 0 && segs@.last().1 == start && data@[start - 1] == 10,
            forall|k: int| 0 <= k < segs@.len() ==> (#[trigger] segs@[k]).0 < segs@[k].1 <= start,
            forall|k: int|
                0 <= k < segs@.len() - 1 ==> (#[trigger] segs@[k]).1 == segs@[k + 1].0 && data@[segs@[k].1 - 1]
                    == 10,
            forall|k: int, j: int|
                #![trigger segs@[k], data@[j]]
                0 <= k < segs@.len() && segs@[k].0 <= j < segs@[k].1 - 1 ==> data@[j] != 10,
            forall|j: int| start <= j < i ==> data@[j] != 10,
        decreases data@.len() - i,
    {
        if data[i] == 10 {
            segs.push((start, i + 1));
            start = i + 1;
        }
        i = i + 1;
    }
    if start < data.len() {
        segs.push((start, data.len()));
    }
    segs
}

} // verus!
