//! The data model of a CAD document, and the resolution of the part
//! instances of an assembly to the parts they are instances of.
use vstd::prelude::*;

verus! {

/// A CAD document.
#[derive(Clone, Debug)]
pub struct Document {
    pub id: String,
    pub name: String,
    pub default_workspace: Workspace,
}

/// A workspace of a document. `href` holds the workspace's address as text.
#[derive(Clone, Debug)]
pub struct Workspace {
    pub id: String,
    pub name: String,
    pub href: String,
}

/// One tab of a document.
#[derive(Clone, Debug)]
pub struct DocumentElement {
    pub id: String,
    pub name: String,
    pub file_name: Option<String>,
    pub element_type: TabElementType,
}

/// An assembly with the parts it uses and the assemblies nested in it.
#[derive(Clone, Debug)]
pub struct AssemblyDefinition {
    pub parts: Vec<Part>,
    pub root_assembly: Assembly,
    pub sub_assemblies: Vec<SubAssembly>,
}

/// The top level of an assembly.
#[derive(Clone, Debug)]
pub struct Assembly {
    pub full_configuration: String,
    pub instances: Vec<Instance>,
}

/// An assembly nested in another one.
#[derive(Clone, Debug)]
pub struct SubAssembly {
    pub configuration: String,
    pub full_configuration: String,
    pub instances: Vec<Instance>,
}

/// An occurrence of a part or of an assembly in an assembly.
#[derive(Clone, Debug)]
pub struct Instance {
    pub id: String,
    pub name: String,
    pub instance_type: InstanceType,
    pub is_standard_content: bool,
    pub is_suppressed: bool,
    pub element_id: String,
    pub part_id: Option<String>,
    pub full_configuration: String,
    pub configuration: String,
}

/// A part, found by the element it lives in and its id there.
#[derive(Clone, Debug)]
pub struct Part {
    pub body_type: String,
    pub document_id: String,
    pub document_microversion: String,
    pub element_id: String,
    pub part_id: String,
}

/// The kind of a document tab.
#[derive(Clone, Copy, Debug, PartialEq, Eq, Structural)]
pub enum TabElementType {
    Application,
    Assembly,
    BillOfMaterials,
    Blob,
    Drawing,
    FeatureStudio,
    PartStudio,
    PublicationItem,
    Table,
    VariableStudio,
    Unknown,
}

/// The kind of an instance.
#[derive(Clone, Copy, Debug, PartialEq, Eq, Structural)]
pub enum InstanceType {
    Assembly,
    Feature,
    Part,
    Unknown,
}

/// What a part is found by: the text of its element id and of its part id.
pub type PartKey = (Seq<char>, Seq<char>);

impl Part {
    /// The key under which the part is found.
    pub open spec fn key(&self) -> PartKey {
        (self.element_id@, self.part_id@)
    }
}

impl Instance {
    /// Whether the instance is an occurrence of a part.
    pub open spec fn is_part(&self) -> bool {
        self.instance_type == InstanceType::Part
    }

    /// The key of the part that the instance names, if it names one.
    pub open spec fn part_key(&self) -> Option<PartKey> {
        match self.part_id {
            Some(part_id) => Some((self.element_id@, part_id@)),
            None => None,
        }
    }
}

/// The parts of `parts` by their keys. Of two parts with the same key the
/// later one is found.
pub open spec fn part_map_of(parts: Seq<Part>) -> Map<PartKey, Part>
    decreases parts.len(),
{
    if parts.len() == 0 {
        Map::empty()
    } else {
        part_map_of(parts.drop_last()).insert(parts.last().key(), parts.last())
    }
}

/// A key that no part of `parts` has is not in their map.
pub proof fn lemma_part_map_misses(parts: Seq<Part>, key: PartKey)
    requires
        forall|j: int| 0 <= j < parts.len() ==> (#[trigger] parts[j]).key() != key,
    ensures
        !part_map_of(parts).dom().contains(key),
    decreases parts.len(),
{
    if parts.len() > 0 {
        lemma_part_map_misses(parts.drop_last(), key);
    }
}

/// Under a key the map holds the last part that has it.
pub proof fn lemma_part_map_finds_last(parts: Seq<Part>, key: PartKey, i: int)
    requires
        0 <= i < parts.len(),
        parts[i].key() == key,
        forall|j: int| i < j < parts.len() ==> (#[trigger] parts[j]).key() != key,
    ensures
        part_map_of(parts).dom().contains(key),
        part_map_of(parts)[key] == parts[i],
    decreases parts.len(),
{
    if i < parts.len() - 1 {
        lemma_part_map_finds_last(parts.drop_last(), key, i);
    }
}

/// The parts of an assembly, to be looked up by element id and part id.
pub struct PartMap<'a> {
    parts: &'a Vec<Part>,
}

impl<'a> View for PartMap<'a> {
    type V = Map<PartKey, Part>;

    closed spec fn view(&self) -> Map<PartKey, Part> {
        part_map_of(self.parts@)
    }
}

impl<'a> PartMap<'a> {
    /// The part with the given element id and part id, if there is one; the
    /// last of them in the assembly's list if there are several.
    pub fn get(&self, element_id: &String, part_id: &String) -> (found: Option<&'a Part>)
        ensures
            match found {
                Some(part) => self@.dom().contains((element_id@, part_id@)) && *part == self@[(
                    element_id@,
                    part_id@,
                )],
                None => !self@.dom().contains((element_id@, part_id@)),
            },
    {
        let ghost key: PartKey = (element_id@, part_id@);
        let mut i: usize = self.parts.len();
        while i > 0
            invariant
                i <= self.parts@.len(),
                key == (element_id@, part_id@),
                forall|j: int| i <= j < self.parts@.len() ==> (#[trigger] self.parts@[j]).key() != key,
            decreases i,
        {
            i = i - 1;
            let part: &'a Part = &self.parts[i];
            if part.element_id == *element_id && part.part_id == *part_id {
                proof {
                    lemma_part_map_finds_last(self.parts@, key, i as int);
                }
                return Some(part);
            }
        }
        proof {
            lemma_part_map_misses(self.parts@, key);
        }
        None
    }
}

/// Why the part instances of an assembly could not be resolved.
#[derive(Clone, Copy, Debug, PartialEq, Eq, Structural)]
pub enum ResolveError {
    /// An instance of a part names no part id.
    MissingPartId,
    /// An instance of a part names a part that the assembly does not list.
    PartNotFound,
}

/// Why `inst` cannot be resolved against `map`, if it cannot. Instances
/// that are not instances of a part need no resolving.
pub open spec fn failure_of(map: Map<PartKey, Part>, inst: Instance) -> Option<ResolveError> {
    if !inst.is_part() {
        None
    } else {
        match inst.part_key() {
            None => Some(ResolveError::MissingPartId),
            Some(key) => if map.dom().contains(key) {
                None
            } else {
                Some(ResolveError::PartNotFound)
            },
        }
    }
}

/// The failure of the first instance of `insts` that cannot be resolved
/// against `map`, if there is one.
pub open spec fn first_failure(map: Map<PartKey, Part>, insts: Seq<Instance>) -> Option<
    ResolveError,
>
    decreases insts.len(),
{
    if insts.len() == 0 {
        None
    } else {
        match first_failure(map, insts.drop_last()) {
            Some(e) => Some(e),
            None => failure_of(map, insts.last()),
        }
    }
}

/// The instances of parts among `insts`, in their order, each with the part
/// that `map` holds under its key.
pub open spec fn resolved_pairs(map: Map<PartKey, Part>, insts: Seq<Instance>) -> Seq<
    (Instance, Part),
>
    decreases insts.len(),
{
    if insts.len() == 0 {
        Seq::empty()
    } else {
        let rest = resolved_pairs(map, insts.drop_last());
        let inst = insts.last();
        if inst.is_part() {
            rest.push((inst, map[inst.part_key().unwrap()]))
        } else {
            rest
        }
    }
}

/// The instances of all of `subs`, sub-assembly after sub-assembly.
pub open spec fn sub_instances(subs: Seq<SubAssembly>) -> Seq<Instance>
    decreases subs.len(),
{
    if subs.len() == 0 {
        Seq::empty()
    } else {
        sub_instances(subs.drop_last()) + subs.last().instances@
    }
}

/// The pairs behind a list of borrowed pairs.
pub open spec fn pair_values(pairs: Seq<(&Instance, &Part)>) -> Seq<(Instance, Part)> {
    pairs.map_values(|pair: (&Instance, &Part)| (*pair.0, *pair.1))
}

/// Resolving a list of instances followed by another gives the pairs of
/// the first followed by those of the second, and fails first where the
/// first list fails, else where the second does.
pub proof fn lemma_resolve_concat(map: Map<PartKey, Part>, a: Seq<Instance>, b: Seq<Instance>)
    ensures
        resolved_pairs(map, a + b) == resolved_pairs(map, a) + resolved_pairs(map, b),
        first_failure(map, a + b) == match first_failure(map, a) {
            Some(e) => Some(e),
            None => first_failure(map, b),
        },
    decreases b.len(),
{
    if b.len() == 0 {
        assert(a + b =~= a);
        assert(resolved_pairs(map, a) + resolved_pairs(map, b) =~= resolved_pairs(map, a));
    } else {
        lemma_resolve_concat(map, a, b.drop_last());
        assert((a + b).drop_last() =~= a + b.drop_last());
        assert((a + b).last() == b.last());
        let rest = resolved_pairs(map, a) + resolved_pairs(map, b.drop_last());
        if b.last().is_part() {
            let pair = (b.last(), map[b.last().part_key().unwrap()]);
            assert(rest.push(pair) =~= resolved_pairs(map, a) + resolved_pairs(
                map,
                b.drop_last(),
            ).push(pair));
        }
    }
}

/// No instance of a list fails exactly if every instance of a part in it
/// names a part that the map holds.
pub proof fn lemma_no_failure_iff_all_resolve(map: Map<PartKey, Part>, insts: Seq<Instance>)
    ensures
        first_failure(map, insts) is None <==> forall|i: int|
            0 <= i < insts.len() ==> failure_of(map, #[trigger] insts[i]) is None,
    decreases insts.len(),
{
    if insts.len() > 0 {
        lemma_no_failure_iff_all_resolve(map, insts.drop_last());
        if first_failure(map, insts) is None {
            assert forall|i: int| 0 <= i < insts.len() implies failure_of(
                map,
                #[trigger] insts[i],
            ) is None by {
                if i < insts.len() - 1 {
                    assert(insts.drop_last()[i] == insts[i]);
                }
            }
        }
        if forall|i: int| 0 <= i < insts.len() ==> failure_of(map, #[trigger] insts[i]) is None {
            assert forall|i: int| 0 <= i < insts.drop_last().len() implies failure_of(
                map,
                #[trigger] insts.drop_last()[i],
            ) is None by {
                assert(insts.drop_last()[i] == insts[i]);
            }
            assert(failure_of(map, insts[insts.len() - 1]) is None);
        }
    }
}

/// Resolves the instances of `insts` in their order against `map` and
/// appends the pairs to `out`, up to the first instance that cannot be
/// resolved.
fn resolve_into<'a>(
    map: &PartMap<'a>,
    insts: &'a Vec<Instance>,
    out: &mut Vec<(&'a Instance, &'a Part)>,
) -> (outcome: Result<(), ResolveError>)
    ensures
        match outcome {
            Ok(()) => {
                &&& first_failure(map@, insts@) is None
                &&& pair_values(final(out)@) == pair_values(old(out)@) + resolved_pairs(
                    map@,
                    insts@,
                )
            },
            Err(e) => first_failure(map@, insts@) == Some(e),
        },
{
    let mut i: usize = 0;
    proof {
        assert(insts@.take(0) =~= Seq::<Instance>::empty());
        assert(pair_values(out@) + Seq::<(Instance, Part)>::empty() =~= pair_values(out@));
    }
    while i < insts.len()
        invariant
            i <= insts@.len(),
            first_failure(map@, insts@.take(i as int)) is None,
            pair_values(out@) == pair_values(old(out)@) + resolved_pairs(
                map@,
                insts@.take(i as int),
            ),
        decreases insts@.len() - i,
    {
        let inst: &'a Instance = &insts[i];
        proof {
            assert(insts@.take(i + 1).drop_last() =~= insts@.take(i as int));
            assert(insts@.take(i + 1).last() == *inst);
        }
        if inst.instance_type == InstanceType::Part {
            match &inst.part_id {
                None => {
                    proof {
                        lemma_failure_stays(map@, insts@, i + 1);
                    }
                    return Err(ResolveError::MissingPartId);
                },
                Some(part_id) => {
                    match map.get(&inst.element_id, part_id) {
                        None => {
                            proof {
                                lemma_failure_stays(map@, insts@, i + 1);
                            }
                            return Err(ResolveError::PartNotFound);
                        },
                        Some(part) => {
                            let ghost before = out@;
                            out.push((inst, part));
                            proof {
                                assert(pair_values(out@) =~= pair_values(before).push(
                                    (*inst, *part),
                                ));
                                assert(pair_values(out@) =~= pair_values(old(out)@)
                                    + resolved_pairs(map@, insts@.take(i + 1)));
                            }
                        },
                    }
                },
            }
        }
        i = i + 1;
    }
    proof {
        assert(insts@.take(i as int) =~= insts@);
    }
    Ok(())
}

/// A failure among the first `n` instances is the first failure of the
/// whole list.
pub proof fn lemma_failure_stays(map: Map<PartKey, Part>, insts: Seq<Instance>, n: int)
    requires
        0 <= n <= insts.len(),
        first_failure(map, insts.take(n)) is Some,
    ensures
        first_failure(map, insts) == first_failure(map, insts.take(n)),
{
    lemma_resolve_concat(map, insts.take(n), insts.skip(n));
    assert(insts.take(n) + insts.skip(n) =~= insts);
}

impl AssemblyDefinition {
    /// The parts of the assembly by their keys.
    pub open spec fn part_map(&self) -> Map<PartKey, Part> {
        part_map_of(self.parts@)
    }

    /// All instances of the assembly: those of the top level, then those of
    /// each nested assembly in turn.
    pub open spec fn all_instances(&self) -> Seq<Instance> {
        self.root_assembly.instances@ + sub_instances(self.sub_assemblies@)
    }

    /// Every instance of a part names a part id, and the assembly lists a
    /// part with that id in the instance's element.
    pub open spec fn resolvable(&self) -> bool {
        forall|i: int|
            0 <= i < self.all_instances().len() ==> failure_of(
                self.part_map(),
                #[trigger] self.all_instances()[i],
            ) is None
    }

    /// The instances of parts, in the order of [`Self::all_instances`], each
    /// with its part.
    pub open spec fn part_instances(&self) -> Seq<(Instance, Part)> {
        resolved_pairs(self.part_map(), self.all_instances())
    }

    /// The parts of the assembly, to be looked up by element id and part id.
    pub fn get_part_map(&self) -> (map: PartMap<'_>)
        ensures
            map@ == self.part_map(),
    {
        PartMap { parts: &self.parts }
    }

    /// Pairs every instance of a part with its part, or says why the first
    /// instance that has none has none.
    pub fn resolve_part_instances(&self) -> (outcome: Result<
        Vec<(&Instance, &Part)>,
        ResolveError,
    >)
        ensures
            outcome is Ok <==> self.resolvable(),
            match outcome {
                Ok(pairs) => pair_values(pairs@) == self.part_instances(),
                Err(e) => first_failure(self.part_map(), self.all_instances()) == Some(e),
            },
    {
        let map = self.get_part_map();
        let mut pairs: Vec<(&Instance, &Part)> = Vec::new();
        proof {
            lemma_no_failure_iff_all_resolve(self.part_map(), self.all_instances());
            lemma_resolve_concat(
                self.part_map(),
                self.root_assembly.instances@,
                sub_instances(self.sub_assemblies@),
            );
            assert(pair_values(pairs@) =~= Seq::<(Instance, Part)>::empty());
        }
        match resolve_into(&map, &self.root_assembly.instances, &mut pairs) {
            Err(e) => {
                return Err(e);
            },
            Ok(()) => {},
        }
        let ghost root_pairs = pair_values(pairs@);
        let mut k: usize = 0;
        proof {
            assert(self.sub_assemblies@.take(0) =~= Seq::<SubAssembly>::empty());
            assert(root_pairs =~= resolved_pairs(self.part_map(), self.root_assembly.instances@));
            assert(root_pairs + Seq::<(Instance, Part)>::empty() =~= root_pairs);
        }
        while k < self.sub_assemblies.len()
            invariant
                k <= self.sub_assemblies@.len(),
                map@ == self.part_map(),
                first_failure(map@, self.root_assembly.instances@) is None,
                first_failure(map@, sub_instances(self.sub_assemblies@.take(k as int))) is None,
                pair_values(pairs@) == root_pairs + resolved_pairs(
                    map@,
                    sub_instances(self.sub_assemblies@.take(k as int)),
                ),
            decreases self.sub_assemblies@.len() - k,
        {
            let sub: &SubAssembly = &self.sub_assemblies[k];
            proof {
                assert(self.sub_assemblies@.take(k + 1).drop_last() =~= self.sub_assemblies@.take(
                    k as int,
                ));
                assert(self.sub_assemblies@.take(k + 1).last() == *sub);
                lemma_resolve_concat(
                    map@,
                    sub_instances(self.sub_assemblies@.take(k as int)),
                    sub.instances@,
                );
            }
            match resolve_into(&map, &sub.instances, &mut pairs) {
                Err(e) => {
                    proof {
                        lemma_sub_failure_stays(map@, self.sub_assemblies@, k + 1);
                        lemma_resolve_concat(
                            map@,
                            self.root_assembly.instances@,
                            sub_instances(self.sub_assemblies@),
                        );
                        lemma_no_failure_iff_all_resolve(map@, self.all_instances());
                    }
                    return Err(e);
                },
                Ok(()) => {},
            }
            k = k + 1;
        }
        proof {
            assert(self.sub_assemblies@.take(k as int) =~= self.sub_assemblies@);
        }
        Ok(pairs)
    }

    /// Every instance of a part with its part: the instances of the top
    /// level first, then those of each nested assembly in turn. The part of
    /// an instance is the one with the instance's element id and part id,
    /// the last of them in the assembly's list if there are several.
    pub fn all_part_instances(&self) -> (pairs: Vec<(&Instance, &Part)>)
        requires
            self.resolvable(),
        ensures
            pair_values(pairs@) == self.part_instances(),
    {
        match self.resolve_part_instances() {
            Ok(pairs) => pairs,
            Err(_) => vstd::pervasive::unreached(),
        }
    }
}

/// A failure among the instances of the first `n` nested assemblies is the
/// first failure among the instances of all of them.
pub proof fn lemma_sub_failure_stays(map: Map<PartKey, Part>, subs: Seq<SubAssembly>, n: int)
    requires
        0 <= n <= subs.len(),
        first_failure(map, sub_instances(subs.take(n))) is Some,
    ensures
        first_failure(map, sub_instances(subs)) == first_failure(map, sub_instances(subs.take(n))),
    decreases subs.len() - n,
{
    if n < subs.len() {
        assert(subs.take(n + 1).drop_last() =~= subs.take(n));
        lemma_resolve_concat(map, sub_instances(subs.take(n)), subs.take(n + 1).last().instances@);
        lemma_sub_failure_stays(map, subs, n + 1);
    } else {
        assert(subs.take(n) =~= subs);
    }
}

/// Whether one of `ids` is the text `id`.
pub open spec fn is_listed(ids: Seq<String>, id: Seq<char>) -> bool {
    exists|j: int| 0 <= j < ids.len() && (#[trigger] ids[j])@ == id
}

/// The pairs of `pairs` whose instance has one of the ids `ids`, in their
/// order.
pub open spec fn synced_pairs(pairs: Seq<(Instance, Part)>, ids: Seq<String>) -> Seq<
    (Instance, Part),
> {
    pairs.filter(|pair: (Instance, Part)| is_listed(ids, pair.0.id@))
}

/// Whether `id` is one of `ids`.
fn contains_id(ids: &Vec<String>, id: &String) -> (found: bool)
    ensures
        found == is_listed(ids@, id@),
{
    let mut j: usize = 0;
    while j < ids.len()
        invariant
            j <= ids@.len(),
            forall|k: int| 0 <= k < j ==> (#[trigger] ids@[k])@ != id@,
        decreases ids@.len() - j,
    {
        if ids[j] == *id {
            return true;
        }
        j = j + 1;
    }
    false
}

/// Of the pairs of part instances and parts, those whose instance is one of
/// the instances named by `synced_ids`, in their order.
pub fn select_synced<'a>(
    pairs: &Vec<(&'a Instance, &'a Part)>,
    synced_ids: &Vec<String>,
) -> (picked: Vec<(&'a Instance, &'a Part)>)
    ensures
        pair_values(picked@) == synced_pairs(pair_values(pairs@), synced_ids@),
{
    let mut picked: Vec<(&'a Instance, &'a Part)> = Vec::new();
    let mut i: usize = 0;
    proof {
        reveal(Seq::filter);
        assert(pair_values(pairs@).take(0) =~= Seq::<(Instance, Part)>::empty());
        assert(pair_values(picked@) =~= Seq::<(Instance, Part)>::empty());
    }
    while i < pairs.len()
        invariant
            i <= pairs@.len(),
            pair_values(picked@) == synced_pairs(pair_values(pairs@).take(i as int), synced_ids@),
        decreases pairs@.len() - i,
    {
        let inst: &'a Instance = pairs[i].0;
        let part: &'a Part = pairs[i].1;
        let ghost before = picked@;
        let listed: bool = contains_id(synced_ids, &inst.id);
        if listed {
            picked.push((inst, part));
        }
        proof {
            reveal(Seq::filter);
            let values = pair_values(pairs@);
            assert(values.take(i + 1).drop_last() =~= values.take(i as int));
            assert(values.take(i + 1).last() == (*inst, *part));
            if listed {
                assert(pair_values(picked@) =~= pair_values(before).push((*inst, *part)));
            }
        }
        i = i + 1;
    }
    proof {
        assert(pair_values(pairs@).take(i as int) =~= pair_values(pairs@));
    }
    picked
}

} // verus!
