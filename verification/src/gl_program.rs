//! A linked shader program with deferred uniforms.
//!
//! Uniform values are staged: each `set_*` call overwrites-or-inserts into a
//! pending table (last write for a name wins), and nothing reaches the
//! graphics API until `activate`, which binds the program and flushes every
//! pending value in table order. Linking attaches every shader, links,
//! and detaches every shader whatever the outcome, so no attachment outlives
//! the link attempt; the outcome itself is decided by [`PendingLink::finish`]
//! once the executor has read the link status.

use vstd::prelude::*;

verus! {

use crate::commands::GlCmd;
use crate::commands::HandleArena;
use crate::commands::added;
use crate::commands::attach_count;
use crate::commands::detach_count;
use crate::commands::extends;
use crate::commands::lemma_counts_push;
use crate::commands::lemma_no_draws;
use crate::commands::draw_count;
use crate::linalg::Mat4Bits;
use crate::linalg::copy_u32_vec;
use crate::shader::Shader;

/// The mapping an association list denotes: later entries win.
pub open spec fn assoc_map<V>(s: Seq<(String, V)>) -> Map<Seq<char>, V>
    decreases s.len(),
{
    if s.len() == 0 {
        Map::empty()
    } else {
        assoc_map(s.drop_last()).insert(s.last().0@, s.last().1)
    }
}

/// No two entries share a name, so each name's value is unambiguous.
pub open spec fn assoc_keys_distinct<V>(s: Seq<(String, V)>) -> bool {
    forall|i: int, j: int| 0 <= i < j < s.len() ==> s[i].0@ != s[j].0@
}

/// Appending a fresh entry inserts its binding.
proof fn lemma_assoc_push<V>(s: Seq<(String, V)>, name: String, value: V)
    ensures
        assoc_map(s.push((name, value))) == assoc_map(s).insert(name@, value),
{
    assert(s.push((name, value)).drop_last() =~= s);
    assert(s.push((name, value)).last() == (name, value));
}

/// Overwriting the entry that holds a name inserts its new binding.
proof fn lemma_assoc_update<V>(s: Seq<(String, V)>, i: int, name: String, value: V)
    requires
        assoc_keys_distinct(s),
        0 <= i < s.len(),
        s[i].0@ == name@,
    ensures
        assoc_map(s.update(i, (name, value))) =~= assoc_map(s).insert(name@, value),
    decreases s.len(),
{
    let t = s.update(i, (name, value));
    if i == s.len() - 1 {
        assert(t.drop_last() =~= s.drop_last());
        assert(assoc_map(s.drop_last()).insert(s.last().0@, s.last().1).insert(name@, value)
            =~= assoc_map(s.drop_last()).insert(name@, value));
    } else {
        assert(t.drop_last() =~= s.drop_last().update(i, (name, value)));
        assert(assoc_keys_distinct(s.drop_last())) by {
            assert(forall|a: int, b: int|
                0 <= a < b < s.len() - 1 ==> s.drop_last()[a] == s[a] && s.drop_last()[b] == s[b]);
        }
        lemma_assoc_update(s.drop_last(), i, name, value);
        assert(t.last() == s.last());
        assert(s[i].0@ != s.last().0@);
        assert(assoc_map(s.drop_last()).insert(name@, value).insert(s.last().0@, s.last().1)
            =~= assoc_map(s.drop_last()).insert(s.last().0@, s.last().1).insert(name@, value));
    }
}

/// Overwrite-or-insert into an association list: the denoted mapping gains
/// the binding, existing entries keep their places, and a new name goes to
/// the end.
fn assoc_set<V>(list: &mut Vec<(String, V)>, name: String, value: V)
    requires
        assoc_keys_distinct(old(list)@),
    ensures
        assoc_keys_distinct(final(list)@),
        assoc_map(final(list)@) == assoc_map(old(list)@).insert(name@, value),
{
    let mut i: usize = 0;
    while i < list.len()
        invariant
            i <= list@.len(),
            list@ == old(list)@,
            assoc_keys_distinct(list@),
            forall|j: int| 0 <= j < i ==> list@[j].0@ != name@,
        decreases list@.len() - i,
    {
        if list[i].0 == name {
            let ghost s = list@;
            list.set(i, (name, value));
            proof {
                lemma_assoc_update(s, i as int, name, value);
                assert(assoc_keys_distinct(list@)) by {
                    assert(forall|a: int|
                        0 <= a < list@.len() ==> list@[a].0@ == s[a].0@);
                }
            }
            return ;
        }
        i = i + 1;
    }
    let ghost s = list@;
    list.push((name, value));
    proof {
        lemma_assoc_push(s, name, value);
        assert(forall|a: int| 0 <= a < s.len() ==> list@[a] == s[a]);
    }
}

/// A typed error for a failed link attempt, carrying the diagnostic the
/// executor fetched from the graphics API.
#[derive(Debug)]
pub struct LinkError {
    message: String,
}

impl LinkError {
    pub closed spec fn message_spec(&self) -> Seq<char> {
        self.message@
    }

    /// The link diagnostic.
    pub fn message(&self) -> (r: &String)
        ensures
            r@ == self.message_spec(),
    {
        &self.message
    }
}

/// A linked program with its pending uniform tables. Float values and
/// matrix entries are single-precision bit patterns.
pub struct GLProgram {
    id: u32,
    floats: Vec<(String, u32)>,
    ints: Vec<(String, i32)>,
    bools: Vec<(String, bool)>,
    matrices: Vec<(String, Vec<u32>)>,
}

impl GLProgram {
    pub closed spec fn id_spec(&self) -> u32 {
        self.id
    }

    pub closed spec fn floats_list(&self) -> Seq<(String, u32)> {
        self.floats@
    }

    pub closed spec fn ints_list(&self) -> Seq<(String, i32)> {
        self.ints@
    }

    pub closed spec fn bools_list(&self) -> Seq<(String, bool)> {
        self.bools@
    }

    pub closed spec fn matrices_list(&self) -> Seq<(String, Vec<u32>)> {
        self.matrices@
    }

    /// The pending float uniforms, by name.
    pub open spec fn floats_map(&self) -> Map<Seq<char>, u32> {
        assoc_map(self.floats_list())
    }

    /// The pending integer uniforms, by name.
    pub open spec fn ints_map(&self) -> Map<Seq<char>, i32> {
        assoc_map(self.ints_list())
    }

    /// The pending boolean uniforms, by name.
    pub open spec fn bools_map(&self) -> Map<Seq<char>, bool> {
        assoc_map(self.bools_list())
    }

    /// The pending matrix uniforms, by name.
    pub open spec fn matrices_map(&self) -> Map<Seq<char>, Vec<u32>> {
        assoc_map(self.matrices_list())
    }

    /// Every pending table binds each name at most once.
    pub open spec fn wf(&self) -> bool {
        &&& assoc_keys_distinct(self.floats_list())
        &&& assoc_keys_distinct(self.ints_list())
        &&& assoc_keys_distinct(self.bools_list())
        &&& assoc_keys_distinct(self.matrices_list())
    }

    /// The virtual handle of the underlying program object.
    pub fn id(&self) -> (r: u32)
        ensures
            r == self.id_spec(),
    {
        self.id
    }

    /// Stages a float uniform; the last write for a name wins.
    pub fn set_float(&mut self, var: &str, value_bits: u32)
        requires
            old(self).wf(),
        ensures
            final(self).wf(),
            final(self).floats_map() == old(self).floats_map().insert(var@, value_bits),
            final(self).ints_map() == old(self).ints_map(),
            final(self).bools_map() == old(self).bools_map(),
            final(self).matrices_map() == old(self).matrices_map(),
            final(self).id_spec() == old(self).id_spec(),
    {
        assoc_set(&mut self.floats, var.to_owned(), value_bits);
    }

    /// Stages an integer uniform; the last write for a name wins.
    pub fn set_int(&mut self, var: &str, value: i32)
        requires
            old(self).wf(),
        ensures
            final(self).wf(),
            final(self).ints_map() == old(self).ints_map().insert(var@, value),
            final(self).floats_map() == old(self).floats_map(),
            final(self).bools_map() == old(self).bools_map(),
            final(self).matrices_map() == old(self).matrices_map(),
            final(self).id_spec() == old(self).id_spec(),
    {
        assoc_set(&mut self.ints, var.to_owned(), value);
    }

    /// Stages a boolean uniform; the last write for a name wins.
    pub fn set_bool(&mut self, var: &str, value: bool)
        requires
            old(self).wf(),
        ensures
            final(self).wf(),
            final(self).bools_map() == old(self).bools_map().insert(var@, value),
            final(self).floats_map() == old(self).floats_map(),
            final(self).ints_map() == old(self).ints_map(),
            final(self).matrices_map() == old(self).matrices_map(),
            final(self).id_spec() == old(self).id_spec(),
    {
        assoc_set(&mut self.bools, var.to_owned(), value);
    }

    /// Stages a matrix uniform from a snapshot of the given matrix; the last
    /// write for a name wins.
    pub fn set_matrix(&mut self, var: &str, value: &Mat4Bits)
        requires
            old(self).wf(),
        ensures
            final(self).wf(),
            final(self).matrices_map().dom() == old(self).matrices_map().dom().insert(var@),
            final(self).matrices_map()[var@]@ == value@,
            forall|k: Seq<char>|
                old(self).matrices_map().dom().contains(k) && k != var@
                    ==> final(self).matrices_map()[k] == old(self).matrices_map()[k],
            final(self).floats_map() == old(self).floats_map(),
            final(self).ints_map() == old(self).ints_map(),
            final(self).bools_map() == old(self).bools_map(),
            final(self).id_spec() == old(self).id_spec(),
    {
        let entries = copy_u32_vec(value.entries());
        assoc_set(&mut self.matrices, var.to_owned(), entries);
        assert(self.matrices_map().dom() =~= old(self).matrices_map().dom().insert(var@));
    }

    /// Binds the program and flushes every pending uniform, in table order.
    /// The pending tables stay as they are: uniforms are re-uploaded on
    /// every activation.
    pub fn activate(&self, log: &mut Vec<GlCmd>)
        ensures
            extends(old(log)@, final(log)@),
            flush_ok(*self, added(old(log)@, final(log)@)),
            draw_count(added(old(log)@, final(log)@)) == 0,
    {
        let ghost log0 = log@;
        let ghost base = log@.len() as int;
        log.push(GlCmd::UseProgram { program: self.id });
        let mut i: usize = 0;
        while i < self.floats.len()
            invariant
                i <= self.floats@.len(),
                log0.len() == base,
                log@.len() == base + 1 + i,
                log0.is_prefix_of(log@),
                log@[base] == (GlCmd::UseProgram { program: self.id_spec() }),
                forall|k: int|
                    0 <= k < i ==> is_float_cmd(
                        #[trigger] log@[base + 1 + k],
                        self.id_spec(),
                        self.floats_list()[k].0@,
                        self.floats_list()[k].1,
                    ),
            decreases self.floats@.len() - i,
        {
            let name = self.floats[i].0.clone();
            let bits = self.floats[i].1;
            log.push(GlCmd::UniformFloat { program: self.id, name, bits });
            i = i + 1;
        }
        let ghost nf = self.floats_list().len() as int;
        let mut i: usize = 0;
        while i < self.ints.len()
            invariant
                i <= self.ints@.len(),
                log0.len() == base,
                nf == self.floats_list().len(),
                log@.len() == base + 1 + nf + i,
                log0.is_prefix_of(log@),
                log@[base] == (GlCmd::UseProgram { program: self.id_spec() }),
                forall|k: int|
                    0 <= k < nf ==> is_float_cmd(
                        #[trigger] log@[base + 1 + k],
                        self.id_spec(),
                        self.floats_list()[k].0@,
                        self.floats_list()[k].1,
                    ),
                forall|k: int|
                    0 <= k < i ==> is_int_cmd(
                        #[trigger] log@[base + 1 + nf + k],
                        self.id_spec(),
                        self.ints_list()[k].0@,
                        self.ints_list()[k].1,
                    ),
            decreases self.ints@.len() - i,
        {
            let name = self.ints[i].0.clone();
            let value = self.ints[i].1;
            log.push(GlCmd::UniformInt { program: self.id, name, value });
            i = i + 1;
        }
        let ghost ni = self.ints_list().len() as int;
        let mut i: usize = 0;
        while i < self.bools.len()
            invariant
                i <= self.bools@.len(),
                log0.len() == base,
                nf == self.floats_list().len(),
                ni == self.ints_list().len(),
                log@.len() == base + 1 + nf + ni + i,
                log0.is_prefix_of(log@),
                log@[base] == (GlCmd::UseProgram { program: self.id_spec() }),
                forall|k: int|
                    0 <= k < nf ==> is_float_cmd(
                        #[trigger] log@[base + 1 + k],
                        self.id_spec(),
                        self.floats_list()[k].0@,
                        self.floats_list()[k].1,
                    ),
                forall|k: int|
                    0 <= k < ni ==> is_int_cmd(
                        #[trigger] log@[base + 1 + nf + k],
                        self.id_spec(),
                        self.ints_list()[k].0@,
                        self.ints_list()[k].1,
                    ),
                forall|k: int|
                    0 <= k < i ==> is_int_cmd(
                        #[trigger] log@[base + 1 + nf + ni + k],
                        self.id_spec(),
                        self.bools_list()[k].0@,
                        if self.bools_list()[k].1 {
                            1i32
                        } else {
                            0i32
                        },
                    ),
            decreases self.bools@.len() - i,
        {
            let name = self.bools[i].0.clone();
            let value: i32 = if self.bools[i].1 {
                1
            } else {
                0
            };
            log.push(GlCmd::UniformInt { program: self.id, name, value });
            i = i + 1;
        }
        let ghost nb = self.bools_list().len() as int;
        let mut i: usize = 0;
        while i < self.matrices.len()
            invariant
                i <= self.matrices@.len(),
                log0.len() == base,
                nf == self.floats_list().len(),
                ni == self.ints_list().len(),
                nb == self.bools_list().len(),
                log@.len() == base + 1 + nf + ni + nb + i,
                log0.is_prefix_of(log@),
                log@[base] == (GlCmd::UseProgram { program: self.id_spec() }),
                forall|k: int|
                    0 <= k < nf ==> is_float_cmd(
                        #[trigger] log@[base + 1 + k],
                        self.id_spec(),
                        self.floats_list()[k].0@,
                        self.floats_list()[k].1,
                    ),
                forall|k: int|
                    0 <= k < ni ==> is_int_cmd(
                        #[trigger] log@[base + 1 + nf + k],
                        self.id_spec(),
                        self.ints_list()[k].0@,
                        self.ints_list()[k].1,
                    ),
                forall|k: int|
                    0 <= k < nb ==> is_int_cmd(
                        #[trigger] log@[base + 1 + nf + ni + k],
                        self.id_spec(),
                        self.bools_list()[k].0@,
                        if self.bools_list()[k].1 {
                            1i32
                        } else {
                            0i32
                        },
                    ),
                forall|k: int|
                    0 <= k < i ==> is_matrix_cmd(
                        #[trigger] log@[base + 1 + nf + ni + nb + k],
                        self.id_spec(),
                        self.matrices_list()[k].0@,
                        self.matrices_list()[k].1@,
                    ),
            decreases self.matrices@.len() - i,
        {
            let name = self.matrices[i].0.clone();
            let entries = copy_u32_vec(&self.matrices[i].1);
            log.push(GlCmd::UniformMatrix { program: self.id, name, entries });
            i = i + 1;
        }
        proof {
            let addedc = added(log0, log@);
            assert(addedc =~= log@.skip(base));
            assert(addedc[0] == log@[base]);
            assert forall|k: int| 0 <= k < nf implies is_float_cmd(
                #[trigger] addedc[1 + k],
                self.id_spec(),
                self.floats_list()[k].0@,
                self.floats_list()[k].1,
            ) by {
                assert(addedc[1 + k] == log@[base + 1 + k]);
            }
            assert forall|k: int| 0 <= k < ni implies is_int_cmd(
                #[trigger] addedc[1 + nf + k],
                self.id_spec(),
                self.ints_list()[k].0@,
                self.ints_list()[k].1,
            ) by {
                assert(addedc[1 + nf + k] == log@[base + 1 + nf + k]);
            }
            assert forall|k: int| 0 <= k < nb implies is_int_cmd(
                #[trigger] addedc[1 + nf + ni + k],
                self.id_spec(),
                self.bools_list()[k].0@,
                if self.bools_list()[k].1 {
                    1i32
                } else {
                    0i32
                },
            ) by {
                assert(addedc[1 + nf + ni + k] == log@[base + 1 + nf + ni + k]);
            }
            assert forall|k: int| 0 <= k < self.matrices_list().len() implies is_matrix_cmd(
                #[trigger] addedc[1 + nf + ni + nb + k],
                self.id_spec(),
                self.matrices_list()[k].0@,
                self.matrices_list()[k].1@,
            ) by {
                assert(addedc[1 + nf + ni + nb + k] == log@[base + 1 + nf + ni + nb + k]);
            }
            let nm = self.matrices_list().len() as int;
            assert forall|p: int| 0 <= p < addedc.len() implies !((#[trigger] addedc[p])
                is DrawElements) by {
                if p == 0 {
                } else if p < 1 + nf {
                    let k = p - 1;
                    assert(is_float_cmd(
                        addedc[1 + k],
                        self.id_spec(),
                        self.floats_list()[k].0@,
                        self.floats_list()[k].1,
                    ));
                } else if p < 1 + nf + ni {
                    let k = p - 1 - nf;
                    assert(is_int_cmd(
                        addedc[1 + nf + k],
                        self.id_spec(),
                        self.ints_list()[k].0@,
                        self.ints_list()[k].1,
                    ));
                } else if p < 1 + nf + ni + nb {
                    let k = p - 1 - nf - ni;
                    assert(is_int_cmd(
                        addedc[1 + nf + ni + k],
                        self.id_spec(),
                        self.bools_list()[k].0@,
                        if self.bools_list()[k].1 {
                            1i32
                        } else {
                            0i32
                        },
                    ));
                } else {
                    let k = p - 1 - nf - ni - nb;
                    assert(is_matrix_cmd(
                        addedc[1 + nf + ni + nb + k],
                        self.id_spec(),
                        self.matrices_list()[k].0@,
                        self.matrices_list()[k].1@,
                    ));
                }
            }
            lemma_no_draws(addedc);
        }
    }

    /// Creates a program object, attaches every given shader, links, and
    /// detaches every shader again — unconditionally, so that no attachment
    /// outlives the link attempt; attach and detach commands pair 1:1. The
    /// returned handle awaits the link status in [`PendingLink::finish`].
    pub fn from_shaders(shaders: &Vec<Shader>, arena: &mut HandleArena, log: &mut Vec<GlCmd>) -> (p:
        PendingLink)
        requires
            old(arena).wf(),
            old(arena).next_id() < u32::MAX,
        ensures
            final(arena).wf(),
            final(arena).next_id() == old(arena).next_id() + 1,
            p.id_spec() == old(arena).next_id(),
            extends(old(log)@, final(log)@),
            final(log)@.len() == old(log)@.len() + 2 * shaders@.len() + 2,
            link_cmds_at(
                p.id_spec(),
                shaders@.map(|i: int, s: Shader| s.id_spec()),
                final(log)@,
                old(log)@.len() as int,
            ),
            attach_count(added(old(log)@, final(log)@)) == shaders@.len(),
            detach_count(added(old(log)@, final(log)@)) == shaders@.len(),
    {
        let pid = arena.fresh();
        let ghost log0 = log@;
        let ghost base = log@.len() as int;
        log.push(GlCmd::CreateProgram { program: pid });
        proof {
            lemma_counts_push(Seq::empty(), GlCmd::CreateProgram { program: pid });
            assert(log@.skip(base) =~= Seq::empty().push(GlCmd::CreateProgram { program: pid }));
            assert(attach_count(Seq::<GlCmd>::empty()) == 0);
            assert(detach_count(Seq::<GlCmd>::empty()) == 0);
        }
        let n = shaders.len();
        let mut i: usize = 0;
        while i < n
            invariant
                i <= n,
                n == shaders@.len(),
                log0.len() == base,
                log@.len() == base + 1 + i,
                log0.is_prefix_of(log@),
                log@[base] == (GlCmd::CreateProgram { program: pid }),
                forall|k: int|
                    0 <= k < i ==> (#[trigger] log@[base + 1 + k]) == (GlCmd::AttachShader {
                        program: pid,
                        shader: shaders@[k].id_spec(),
                    }),
                attach_count(log@.skip(base)) == i,
                detach_count(log@.skip(base)) == 0,
            decreases n - i,
        {
            let sid = shaders[i].id();
            let ghost suffix = log@.skip(base);
            log.push(GlCmd::AttachShader { program: pid, shader: sid });
            proof {
                lemma_counts_push(suffix, GlCmd::AttachShader { program: pid, shader: sid });
                assert(log@.skip(base) =~= suffix.push(
                    GlCmd::AttachShader { program: pid, shader: sid },
                ));
            }
            i = i + 1;
        }
        let ghost suffix = log@.skip(base);
        log.push(GlCmd::LinkProgram { program: pid });
        proof {
            lemma_counts_push(suffix, GlCmd::LinkProgram { program: pid });
            assert(log@.skip(base) =~= suffix.push(GlCmd::LinkProgram { program: pid }));
        }
        let mut i: usize = 0;
        while i < n
            invariant
                i <= n,
                n == shaders@.len(),
                log0.len() == base,
                log@.len() == base + 2 + n + i,
                log0.is_prefix_of(log@),
                log@[base] == (GlCmd::CreateProgram { program: pid }),
                forall|k: int|
                    0 <= k < n ==> (#[trigger] log@[base + 1 + k]) == (GlCmd::AttachShader {
                        program: pid,
                        shader: shaders@[k].id_spec(),
                    }),
                log@[base + 1 + n] == (GlCmd::LinkProgram { program: pid }),
                forall|k: int|
                    0 <= k < i ==> (#[trigger] log@[base + 2 + n + k]) == (GlCmd::DetachShader {
                        program: pid,
                        shader: shaders@[k].id_spec(),
                    }),
                attach_count(log@.skip(base)) == n,
                detach_count(log@.skip(base)) == i,
            decreases n - i,
        {
            let sid = shaders[i].id();
            let ghost suffix = log@.skip(base);
            log.push(GlCmd::DetachShader { program: pid, shader: sid });
            proof {
                lemma_counts_push(suffix, GlCmd::DetachShader { program: pid, shader: sid });
                assert(log@.skip(base) =~= suffix.push(
                    GlCmd::DetachShader { program: pid, shader: sid },
                ));
            }
            i = i + 1;
        }
        proof {
            let addedc = added(log0, log@);
            assert(addedc =~= log@.skip(base));
            let n = shaders@.len() as int;
            let ids = shaders@.map(|i: int, s: Shader| s.id_spec());
            assert(extends(log0, log@)) by {
                assert(log0 =~= log@.subrange(0, log0.len() as int));
            }
            assert forall|k: int| 0 <= k < n implies (#[trigger] log@[base + 1 + k])
                == (GlCmd::AttachShader { program: pid, shader: ids[k] }) by {
                assert(ids[k] == shaders@[k].id_spec());
            }
            assert forall|k: int| 0 <= k < n implies (#[trigger] log@[base + 2 + n + k])
                == (GlCmd::DetachShader { program: pid, shader: ids[k] }) by {
                assert(ids[k] == shaders@[k].id_spec());
            }
        }
        PendingLink { id: pid }
    }

    /// Emits the command that releases the underlying program object.
    pub fn release(self, log: &mut Vec<GlCmd>)
        ensures
            final(log)@ == old(log)@.push(GlCmd::DeleteProgram { program: self.id_spec() }),
    {
        log.push(GlCmd::DeleteProgram { program: self.id });
    }
}

/// `c` uploads the float uniform `name` with the given bits to `id`.
pub open spec fn is_float_cmd(c: GlCmd, id: u32, name: Seq<char>, bits: u32) -> bool {
    c matches GlCmd::UniformFloat { program, name: n, bits: b } && program == id && n@ == name
        && b == bits
}

/// `c` uploads the integer uniform `name` with the given value to `id`.
pub open spec fn is_int_cmd(c: GlCmd, id: u32, name: Seq<char>, value: i32) -> bool {
    c matches GlCmd::UniformInt { program, name: n, value: v } && program == id && n@ == name
        && v == value
}

/// `c` uploads the matrix uniform `name` with the given entry bits to `id`.
pub open spec fn is_matrix_cmd(c: GlCmd, id: u32, name: Seq<char>, entries: Seq<u32>) -> bool {
    c matches GlCmd::UniformMatrix { program, name: n, entries: e } && program == id && n@ == name
        && e@ == entries
}

/// How many commands a flush of `p`'s pending tables emits: the bind plus
/// one upload per pending uniform.
pub open spec fn flush_len(p: GLProgram) -> int {
    1 + p.floats_list().len() + p.ints_list().len() + p.bools_list().len()
        + p.matrices_list().len() as int
}

/// The flush `activate` performs: bind the program, then upload every
/// pending float, integer, boolean (as a 0/1 integer) and matrix uniform,
/// in table order.
pub open spec fn flush_ok(p: GLProgram, added_cmds: Seq<GlCmd>) -> bool {
    let nf = p.floats_list().len() as int;
    let ni = p.ints_list().len() as int;
    let nb = p.bools_list().len() as int;
    let nm = p.matrices_list().len() as int;
    &&& added_cmds.len() == 1 + nf + ni + nb + nm
    &&& added_cmds[0] == (GlCmd::UseProgram { program: p.id_spec() })
    &&& forall|k: int|
        0 <= k < nf ==> is_float_cmd(
            #[trigger] added_cmds[1 + k],
            p.id_spec(),
            p.floats_list()[k].0@,
            p.floats_list()[k].1,
        )
    &&& forall|k: int|
        0 <= k < ni ==> is_int_cmd(
            #[trigger] added_cmds[1 + nf + k],
            p.id_spec(),
            p.ints_list()[k].0@,
            p.ints_list()[k].1,
        )
    &&& forall|k: int|
        0 <= k < nb ==> is_int_cmd(
            #[trigger] added_cmds[1 + nf + ni + k],
            p.id_spec(),
            p.bools_list()[k].0@,
            if p.bools_list()[k].1 {
                1i32
            } else {
                0i32
            },
        )
    &&& forall|k: int|
        0 <= k < nm ==> is_matrix_cmd(
            #[trigger] added_cmds[1 + nf + ni + nb + k],
            p.id_spec(),
            p.matrices_list()[k].0@,
            p.matrices_list()[k].1@,
        )
}

/// `log` holds, starting at `at`, the link commands for program `pid` over
/// the given shader handles: create, attach each, link, detach each.
pub open spec fn link_cmds_at(pid: u32, shader_ids: Seq<u32>, log: Seq<GlCmd>, at: int) -> bool {
    let n = shader_ids.len() as int;
    &&& at >= 0
    &&& log.len() >= at + 2 * n + 2
    &&& log[at] == (GlCmd::CreateProgram { program: pid })
    &&& forall|k: int|
        0 <= k < n ==> (#[trigger] log[at + 1 + k]) == (GlCmd::AttachShader {
            program: pid,
            shader: shader_ids[k],
        })
    &&& log[at + 1 + n] == (GlCmd::LinkProgram { program: pid })
    &&& forall|k: int|
        0 <= k < n ==> (#[trigger] log[at + 2 + n + k]) == (GlCmd::DetachShader {
            program: pid,
            shader: shader_ids[k],
        })
}

/// Link commands stay where they are when the log only grows.
pub proof fn lemma_link_cmds_extend(
    pid: u32,
    shader_ids: Seq<u32>,
    a: Seq<GlCmd>,
    b: Seq<GlCmd>,
    at: int,
)
    requires
        link_cmds_at(pid, shader_ids, a, at),
        extends(a, b),
    ensures
        link_cmds_at(pid, shader_ids, b, at),
{
    crate::commands::lemma_extends_index(a, b);
    let n = shader_ids.len() as int;
    assert forall|k: int| 0 <= k < n implies (#[trigger] b[at + 1 + k]) == (GlCmd::AttachShader {
        program: pid,
        shader: shader_ids[k],
    }) by {
        assert(b[at + 1 + k] == a[at + 1 + k]);
    }
    assert forall|k: int| 0 <= k < n implies (#[trigger] b[at + 2 + n + k]) == (
    GlCmd::DetachShader { program: pid, shader: shader_ids[k] }) by {
        assert(b[at + 2 + n + k] == a[at + 2 + n + k]);
    }
}

/// A program object whose link status the executor has not yet reported.
pub struct PendingLink {
    id: u32,
}

impl PendingLink {
    pub closed spec fn id_spec(&self) -> u32 {
        self.id
    }

    /// The virtual handle of the program object being linked.
    pub fn id(&self) -> (r: u32)
        ensures
            r == self.id_spec(),
    {
        self.id
    }

    /// Decides the link outcome. On success the program starts with every
    /// pending-uniform table empty; on failure the partially created program
    /// object is released rather than leaked, and the typed error carries
    /// the diagnostic.
    pub fn finish(self, link_ok: bool, diagnostic: String, log: &mut Vec<GlCmd>) -> (r: Result<
        GLProgram,
        LinkError,
    >)
        ensures
            r is Ok <==> link_ok,
            link_ok ==> (r matches Ok(p) && p.id_spec() == self.id_spec() && p.wf()
                && p.floats_map() == Map::<Seq<char>, u32>::empty() && p.ints_map() == Map::<
                Seq<char>,
                i32,
            >::empty() && p.bools_map() == Map::<Seq<char>, bool>::empty() && p.matrices_map()
                == Map::<Seq<char>, Vec<u32>>::empty() && final(log)@ == old(log)@),
            !link_ok ==> (r matches Err(e) && e.message_spec() == diagnostic@ && final(log)@ == old(
                log,
            )@.push(GlCmd::DeleteProgram { program: self.id_spec() })),
    {
        if link_ok {
            Ok(
                GLProgram {
                    id: self.id,
                    floats: Vec::new(),
                    ints: Vec::new(),
                    bools: Vec::new(),
                    matrices: Vec::new(),
                },
            )
        } else {
            log.push(GlCmd::DeleteProgram { program: self.id });
            Err(LinkError { message: diagnostic })
        }
    }
}

} // verus!
