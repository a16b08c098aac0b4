//! Identity and addressing.
//!
//! A resource has a path, which names it as a class, and a unique identifier,
//! which names one instance. A node of the network may know every resource,
//! only the ones it is interested in, or only the ones in use.
use vstd::prelude::*;
use vstd::std_specs::cmp::PartialEqSpecImpl;
use vstd::std_specs::cmp::PartialOrdSpecImpl;
use vstd::std_specs::cmp::PartialEqSpec;
use vstd::std_specs::convert::FromSpec;
use vstd::std_specs::convert::FromSpecImpl;
use arrayvec::ArrayVec;
use smallvec::SmallVec;
use std::cmp::Ordering;
use std::ops::Range;
use std::rc::Rc;
use std::sync::Arc;

verus! {

/// Number of slots in a path.
pub const PATH_SLOTS: usize = 8;

/// Unique identifier of an object of the network: a 256-bit number, and a
/// disambiguator that the environment assigns in the rare case that two
/// systems came up with the same number.
///
/// Identifiers are issued by the environment. Two of them are equal only if
/// both the number and the disambiguator are.
#[derive(Clone, Copy, Debug, Hash, PartialEq, Eq, Structural)]
pub struct Uid {
    /// The high half of the 256-bit number.
    pub high: u128,
    /// The low half of the 256-bit number.
    pub low: u128,
    /// Set only after a collision was detected.
    pub duplicate: Option<u16>,
}

/// `arrayvec::ArrayVec`, the inline vector that holds the nodes of a path.
#[verifier::external_type_specification]
#[verifier::external_body]
#[verifier::reject_recursive_types(T)]
pub struct ExArrayVec<T, const CAP: usize>(ArrayVec<T, CAP>);

/// The nodes that a node vector holds, first to last, each as its characters.
pub uninterp spec fn node_seq(nodes: ArrayVec<&str, PATH_SLOTS>) -> Seq<Seq<char>>;

/// `ArrayVec::len`: the number of nodes held, which never exceeds the
/// capacity.
#[verifier::external_body]
fn nodes_len(nodes: &ArrayVec<&str, PATH_SLOTS>) -> (n: usize)
    ensures
        n == node_seq(*nodes).len(),
        n <= PATH_SLOTS,
{
    nodes.len()
}

/// Indexing an `ArrayVec` through its slice: the node at position `i`.
/// Out of range it panics, so `i` must be below the length.
#[verifier::external_body]
fn nodes_get<'a>(nodes: &ArrayVec<&'a str, PATH_SLOTS>, i: usize) -> (node: &'a str)
    requires
        i < node_seq(*nodes).len(),
    ensures
        node@ == node_seq(*nodes)[i as int],
{
    nodes[i]
}

/// `ArrayVec::clone`: a vector equal to the given one.
#[verifier::external_body]
fn nodes_clone<'a>(nodes: &ArrayVec<&'a str, PATH_SLOTS>) -> (copy: ArrayVec<&'a str, PATH_SLOTS>)
    ensures
        copy == *nodes,
{
    nodes.clone()
}

/// `str`'s `==`: whether two strings hold the same characters.
#[verifier::external_body]
fn str_eq(a: &str, b: &str) -> (same: bool)
    ensures
        same == (a@ == b@),
{
    a == b
}

/// The eight slots of a path whose nodes are `nodes`: a slot beyond the last
/// node is empty.
pub open spec fn slots_of(nodes: Seq<Seq<char>>) -> Seq<Seq<char>> {
    Seq::new(
        PATH_SLOTS as nat,
        |i: int|
            if i < nodes.len() {
                nodes[i]
            } else {
                Seq::<char>::empty()
            },
    )
}

/// Whether a path with the nodes `a` and one with the nodes `b` are the same
/// path: whether all eight slots agree.
pub open spec fn same_path(a: Seq<Seq<char>>, b: Seq<Seq<char>>) -> bool {
    slots_of(a) == slots_of(b)
}

/// The content of slot `i`.
fn slot<'a>(nodes: &ArrayVec<&'a str, PATH_SLOTS>, i: usize) -> (s: &'a str)
    requires
        i < PATH_SLOTS,
    ensures
        s@ == slots_of(node_seq(*nodes))[i as int],
{
    if i < nodes_len(nodes) {
        nodes_get(nodes, i)
    } else {
        proof {
            reveal_strlit("");
        }
        let empty: &'static str = "";
        assert(empty@ =~= Seq::<char>::empty());
        empty
    }
}

/// Whether two node vectors agree in all eight slots.
fn same_slots(a: &ArrayVec<&str, PATH_SLOTS>, b: &ArrayVec<&str, PATH_SLOTS>) -> (same: bool)
    ensures
        same == same_path(node_seq(*a), node_seq(*b)),
{
    let mut i: usize = 0;
    while i < PATH_SLOTS
        invariant
            i <= PATH_SLOTS,
            forall|j: int|
                0 <= j < i ==> slots_of(node_seq(*a))[j] == slots_of(node_seq(*b))[j],
        decreases PATH_SLOTS - i,
    {
        if !str_eq(slot(a, i), slot(b, i)) {
            assert(slots_of(node_seq(*a))[i as int] != slots_of(node_seq(*b))[i as int]);
            return false;
        }
        i += 1;
    }
    assert(slots_of(node_seq(*a)) =~= slots_of(node_seq(*b)));
    true
}

/// Path of a resource: up to eight nodes. It names the resource as a class,
/// not one instance of it.
///
/// A path is handed out by the network to describe a resource that exists.
/// Its nodes are string slices that live as long as the process, so cloning
/// is cheap.
pub struct Path {
    nodes: ArrayVec<&'static str, PATH_SLOTS>,
}

impl View for Path {
    type V = Seq<Seq<char>>;

    /// The nodes of the path, first to last.
    closed spec fn view(&self) -> Seq<Seq<char>> {
        node_seq(self.nodes)
    }
}

impl Path {
    /// The eight slots of the path.
    pub open spec fn slots(&self) -> Seq<Seq<char>> {
        slots_of(self@)
    }

    /// The path with the given nodes.
    pub fn new(nodes: ArrayVec<&'static str, PATH_SLOTS>) -> (p: Self)
        ensures
            p@ == node_seq(nodes),
    {
        Path { nodes }
    }

    /// The nodes of the path, first to last.
    pub fn nodes(&self) -> (nodes: &ArrayVec<&'static str, PATH_SLOTS>)
        ensures
            node_seq(*nodes) == self@,
    {
        &self.nodes
    }
}

impl Clone for Path {
    fn clone(&self) -> (p: Self)
        ensures
            p == *self,
    {
        Path { nodes: nodes_clone(&self.nodes) }
    }
}

impl PartialEq for Path {
    /// Two paths are equal when all eight slots are.
    fn eq(&self, other: &Self) -> (same: bool) {
        same_slots(&self.nodes, &other.nodes)
    }
}

impl PartialEqSpecImpl for Path {
    open spec fn obeys_eq_spec() -> bool {
        true
    }

    open spec fn eq_spec(&self, other: &Self) -> bool {
        same_path(self@, other@)
    }
}

impl Eq for Path {

}

/// A path built from string slices of the caller. It means the same as a
/// [`Path`] and is used to ask for one.
pub struct LocalPath<'a> {
    nodes: ArrayVec<&'a str, PATH_SLOTS>,
}

impl<'a> View for LocalPath<'a> {
    type V = Seq<Seq<char>>;

    /// The nodes of the path, first to last.
    closed spec fn view(&self) -> Seq<Seq<char>> {
        node_seq(self.nodes)
    }
}

impl<'a> LocalPath<'a> {
    /// The eight slots of the path.
    pub open spec fn slots(&self) -> Seq<Seq<char>> {
        slots_of(self@)
    }

    /// The nodes of the path, first to last.
    pub fn nodes(&self) -> (nodes: &ArrayVec<&'a str, PATH_SLOTS>)
        ensures
            node_seq(*nodes) == self@,
    {
        &self.nodes
    }

    /// The path with the given nodes.
    pub fn new(nodes: ArrayVec<&'a str, PATH_SLOTS>) -> (p: Self)
        ensures
            p@ == node_seq(nodes),
    {
        LocalPath { nodes }
    }

    /// Whether this path and `path` name the same resource class: whether
    /// all eight slots agree.
    pub fn names(&self, path: &Path) -> (same: bool)
        ensures
            same == same_path(self@, path@),
    {
        same_slots(&self.nodes, &path.nodes)
    }
}

impl<'a> Clone for LocalPath<'a> {
    fn clone(&self) -> (p: Self)
        ensures
            p == *self,
    {
        LocalPath { nodes: nodes_clone(&self.nodes) }
    }
}

impl<'a> PartialEq for LocalPath<'a> {
    /// Two paths are equal when all eight slots are.
    fn eq(&self, other: &Self) -> (same: bool) {
        same_slots(&self.nodes, &other.nodes)
    }
}

impl<'a> PartialEqSpecImpl for LocalPath<'a> {
    open spec fn obeys_eq_spec() -> bool {
        true
    }

    open spec fn eq_spec(&self, other: &Self) -> bool {
        same_path(self@, other@)
    }
}

impl<'a> Eq for LocalPath<'a> {

}

impl<'a> From<&'a Path> for LocalPath<'static> {
    /// The local path with the nodes of `p`.
    fn from(p: &'a Path) -> (local: Self)
        ensures
            local@ == p@,
    {
        LocalPath { nodes: nodes_clone(&p.nodes) }
    }
}

impl<'a> FromSpecImpl<&'a Path> for LocalPath<'static> {
    open spec fn obeys_from_spec() -> bool {
        true
    }

    closed spec fn from_spec(p: &'a Path) -> Self {
        LocalPath { nodes: p.nodes }
    }
}

/// The local form of `p`: what `LocalPath::from` returns for it.
pub open spec fn local_form(p: &Path) -> LocalPath<'static> {
    <LocalPath<'static> as FromSpec<&Path>>::from_spec(p)
}

/// The local form of a path has the nodes of the path, and so its slots.
pub proof fn local_form_keeps_nodes(p: Path)
    ensures
        local_form(&p)@ == p@,
        local_form(&p).slots() == p.slots(),
{
}

/// The local form of a path equals itself.
pub proof fn local_path_equals_itself(p: Path)
    ensures
        PartialEqSpec::eq_spec(&local_form(&p), &local_form(&p)),
{
}

/// The local forms of two paths that differ in one of the eight slots are
/// not equal.
pub proof fn local_path_differs_by_slot(p: Path, q: Path, i: int)
    requires
        0 <= i < PATH_SLOTS,
        p.slots()[i] != q.slots()[i],
    ensures
        !PartialEqSpec::eq_spec(&local_form(&p), &local_form(&q)),
{
}

/// Version of an interface, in the form `major.minor.patch`.
///
/// Versions are totally ordered: by major number, then minor, then patch.
#[derive(Clone, Copy, Debug, Hash, PartialEq, Eq, Ord, Structural)]
pub struct Version(pub u32, pub u32, pub u32);

impl Version {
    /// Whether `self` is an earlier version than `other`.
    pub open spec fn precedes(self, other: Version) -> bool {
        self.0 < other.0 || (self.0 == other.0 && (self.1 < other.1 || (self.1 == other.1
            && self.2 < other.2)))
    }

    /// How `self` stands to `other` in the order of versions.
    pub open spec fn order(self, other: Version) -> Ordering {
        if self.precedes(other) {
            Ordering::Less
        } else if self == other {
            Ordering::Equal
        } else {
            Ordering::Greater
        }
    }

    /// Whether `self` lies in `range`: not before its start, and before its
    /// end.
    pub open spec fn in_range(self, range: Range<Version>) -> bool {
        !self.precedes(range.start) && self.precedes(range.end)
    }

    /// Whether this version lies in `range`, whose end is exclusive.
    pub fn within(&self, range: &Range<Version>) -> (inside: bool)
        ensures
            inside == self.in_range(*range),
    {
        !(*self < range.start) && *self < range.end
    }
}

impl PartialOrd for Version {
    fn partial_cmp(&self, other: &Self) -> (o: Option<Ordering>) {
        if self.0 < other.0 {
            Some(Ordering::Less)
        } else if self.0 > other.0 {
            Some(Ordering::Greater)
        } else if self.1 < other.1 {
            Some(Ordering::Less)
        } else if self.1 > other.1 {
            Some(Ordering::Greater)
        } else if self.2 < other.2 {
            Some(Ordering::Less)
        } else if self.2 > other.2 {
            Some(Ordering::Greater)
        } else {
            Some(Ordering::Equal)
        }
    }
}

impl PartialOrdSpecImpl for Version {
    open spec fn obeys_partial_cmp_spec() -> bool {
        true
    }

    open spec fn partial_cmp_spec(&self, other: &Self) -> Option<Ordering> {
        Some(self.order(*other))
    }
}

/// No version precedes itself, and of two different versions exactly one
/// precedes the other.
pub proof fn version_order_is_strict_and_total(a: Version, b: Version)
    ensures
        !a.precedes(a),
        a != b ==> (a.precedes(b) <==> !b.precedes(a)),
        a == b ==> !a.precedes(b) && !b.precedes(a),
{
}

/// The order of versions is transitive.
pub proof fn version_order_is_transitive(a: Version, b: Version, c: Version)
    requires
        a.precedes(b),
        b.precedes(c),
    ensures
        a.precedes(c),
{
}

/// What an [`Interface`] is: the nodes of its path, and its version.
pub struct InterfaceView {
    pub path: Seq<Seq<char>>,
    pub version: Version,
}

impl InterfaceView {
    /// Whether this and `other` are the same interface: whether the paths
    /// agree in all eight slots, and the versions are equal.
    pub open spec fn same(self, other: InterfaceView) -> bool {
        same_path(self.path, other.path) && self.version == other.version
    }
}

/// An interface says what a thread that implements it provides. A thread
/// implements a set of interfaces, among them the one that declares its own
/// type, so that it can be instantiated.
pub struct Interface {
    path: Path,
    version: Version,
}

impl View for Interface {
    type V = InterfaceView;

    closed spec fn view(&self) -> InterfaceView {
        InterfaceView { path: self.path@, version: self.version }
    }
}

impl Interface {
    /// The interface at `path` in the given version.
    pub fn new(path: Path, version: Version) -> (i: Self)
        ensures
            i@ == (InterfaceView { path: path@, version }),
    {
        Interface { path, version }
    }

    /// Path of this interface.
    pub fn path(&self) -> (p: &Path)
        ensures
            p@ == self@.path,
    {
        &self.path
    }

    /// Version of this interface.
    pub fn version(&self) -> (v: Version)
        ensures
            v == self@.version,
    {
        self.version
    }
}

impl Clone for Interface {
    fn clone(&self) -> (i: Self)
        ensures
            i == *self,
    {
        Interface { path: self.path.clone(), version: self.version }
    }
}

impl PartialEq for Interface {
    /// Two interfaces are equal when both the path and the version are.
    fn eq(&self, other: &Self) -> (same: bool) {
        self.path == other.path && self.version == other.version
    }
}

impl PartialEqSpecImpl for Interface {
    open spec fn obeys_eq_spec() -> bool {
        true
    }

    open spec fn eq_spec(&self, other: &Self) -> bool {
        self@.same(other@)
    }
}

/// What an [`InstanceId`] is: its interface and its identifier.
pub struct InstanceIdView {
    pub interface: InterfaceView,
    pub uid: Uid,
}

impl InstanceIdView {
    /// Whether this and `other` are the same instance: whether they are of
    /// the same interface and have the same identifier.
    pub open spec fn same(self, other: InstanceIdView) -> bool {
        self.interface.same(other.interface) && self.uid == other.uid
    }
}

/// Being the same interface is an equivalence: every interface is the same
/// as itself, and sameness goes both ways and carries over. Interfaces that
/// are equal are the same; the same interface may be written with more or
/// fewer empty nodes at the end of its path.
pub proof fn same_interface_is_an_equivalence(a: InterfaceView, b: InterfaceView, c: InterfaceView)
    ensures
        a.same(a),
        a == b ==> a.same(b),
        a.same(b) ==> b.same(a),
        a.same(b) && b.same(c) ==> a.same(c),
{
}

/// One implementer of an interface that the network knows: the thread with
/// this identifier.
pub struct InstanceId {
    interface: Rc<Interface>,
    uid: Uid,
}

impl View for InstanceId {
    type V = InstanceIdView;

    closed spec fn view(&self) -> InstanceIdView {
        InstanceIdView { interface: self.interface@, uid: self.uid }
    }
}

impl InstanceId {
    /// The implementer of `interface` that goes by `uid`.
    pub fn new(interface: Rc<Interface>, uid: Uid) -> (i: Self)
        ensures
            i@ == (InstanceIdView { interface: interface@, uid }),
    {
        InstanceId { interface, uid }
    }

    /// The interface that defines this instance.
    pub fn interface(&self) -> (i: &Rc<Interface>)
        ensures
            i@ == self@.interface,
    {
        &self.interface
    }

    /// Path of the interface that defines this instance.
    pub fn path(&self) -> (p: &Path)
        ensures
            p@ == self@.interface.path,
    {
        self.interface.path()
    }

    /// Version of the interface of this instance.
    pub fn version(&self) -> (v: Version)
        ensures
            v == self@.interface.version,
    {
        self.interface.version()
    }

    /// Identifier of the instance.
    pub fn uid(&self) -> (u: Uid)
        ensures
            u == self@.uid,
    {
        self.uid
    }
}

impl Clone for InstanceId {
    fn clone(&self) -> (i: Self)
        ensures
            i == *self,
    {
        InstanceId { interface: Rc::clone(&self.interface), uid: self.uid }
    }
}

impl PartialEq for InstanceId {
    /// Two instances are equal when both the interface and the identifier
    /// are.
    fn eq(&self, other: &Self) -> (same: bool) {
        *self.interface == *other.interface && self.uid == other.uid
    }
}

impl PartialEqSpecImpl for InstanceId {
    open spec fn obeys_eq_spec() -> bool {
        true
    }

    open spec fn eq_spec(&self, other: &Self) -> bool {
        self@.same(other@)
    }
}

/// Most instances that an [`InstanceVec`] is asked to hold. Below it, growing
/// the vector cannot overflow its capacity.
pub const MAX_INSTANCES: usize = usize::MAX / 64;

/// The instances that a search found: a `smallvec::SmallVec` of shared
/// handles, with room for 16 of them inline, which grows beyond that.
///
/// The vector is kept out of the verifier's sight: what it holds is
/// [`instances_of`], and the functions below say what `SmallVec`'s methods do
/// to that.
#[verifier::external_body]
pub struct InstanceVec {
    inner: SmallVec<[Arc<InstanceId>; 16]>,
}

/// The instances that a vector holds, first to last.
pub uninterp spec fn instances_of(v: InstanceVec) -> Seq<InstanceIdView>;

/// `SmallVec::new`: an empty vector.
#[verifier::external_body]
fn instances_new() -> (v: InstanceVec)
    ensures
        instances_of(v) == Seq::<InstanceIdView>::empty(),
{
    InstanceVec { inner: SmallVec::new() }
}

/// `SmallVec::push`: appends `instance`. It panics when the capacity would
/// overflow, which cannot happen below `MAX_INSTANCES` items.
#[verifier::external_body]
fn instances_push(v: &mut InstanceVec, instance: Arc<InstanceId>)
    requires
        instances_of(*old(v)).len() < MAX_INSTANCES,
    ensures
        instances_of(*final(v)) == instances_of(*old(v)).push(instance@),
{
    v.inner.push(instance)
}

/// `SmallVec::len`: the number of items held.
#[verifier::external_body]
fn instances_len(v: &InstanceVec) -> (n: usize)
    ensures
        n == instances_of(*v).len(),
{
    v.inner.len()
}

/// Indexing a `SmallVec` through its slice: the item at position `i`. Out of
/// range it panics, so `i` must be below the length.
#[verifier::external_body]
fn instances_get(v: &InstanceVec, i: usize) -> (instance: &Arc<InstanceId>)
    requires
        i < instances_of(*v).len(),
    ensures
        instance@ == instances_of(*v)[i as int],
{
    &v.inner[i]
}

impl View for InstanceVec {
    type V = Seq<InstanceIdView>;

    open spec fn view(&self) -> Seq<InstanceIdView> {
        instances_of(*self)
    }
}

impl InstanceVec {
    /// Number of instances found.
    pub fn len(&self) -> (n: usize)
        ensures
            n == self@.len(),
    {
        instances_len(self)
    }

    /// Whether no instance was found.
    pub fn is_empty(&self) -> (empty: bool)
        ensures
            empty == (self@.len() == 0),
    {
        instances_len(self) == 0
    }

    /// The instance at position `i`, if there is one.
    pub fn get(&self, i: usize) -> (instance: Option<&Arc<InstanceId>>)
        ensures
            instance is Some == (i < self@.len()),
            instance is Some ==> instance->0@ == self@[i as int],
    {
        if i < instances_len(self) {
            Some(instances_get(self, i))
        } else {
            None
        }
    }
}

/// What each of the given handles stands for.
pub open spec fn instance_views(known: Seq<Arc<InstanceId>>) -> Seq<InstanceIdView> {
    known.map_values(|i: Arc<InstanceId>| i@)
}

/// Request to find the instances of an interface, optionally of certain
/// versions only.
pub struct FindInstanceRequest<'a> {
    path: LocalPath<'a>,
    version: Option<Range<Version>>,
}

impl<'a> FindInstanceRequest<'a> {
    /// The nodes of the path that is asked for.
    pub closed spec fn wanted_path(&self) -> Seq<Seq<char>> {
        self.path@
    }

    /// The versions that are asked for; `None` stands for all of them.
    pub closed spec fn wanted_versions(&self) -> Option<Range<Version>> {
        self.version
    }

    /// Whether `instance` is one that this request asks for: the path of
    /// its interface agrees with the wanted path in all eight slots, and its
    /// version lies in the wanted range, if there is one.
    pub open spec fn admits(&self, instance: InstanceIdView) -> bool {
        &&& same_path(instance.interface.path, self.wanted_path())
        &&& match self.wanted_versions() {
            Some(range) => instance.interface.version.in_range(range),
            None => true,
        }
    }

    /// [`Self::admits`] as a predicate.
    pub open spec fn admitted(&self) -> spec_fn(InstanceIdView) -> bool {
        |instance: InstanceIdView| self.admits(instance)
    }

    /// A request for the interface at `path`, in any version.
    pub fn new(path: LocalPath<'a>) -> (request: Self)
        ensures
            request.wanted_path() == path@,
            request.wanted_versions() is None,
    {
        FindInstanceRequest { path, version: None }
    }

    /// The same request, for implementers whose version lies in `version`.
    pub fn with_version(self, version: Range<Version>) -> (request: Self)
        ensures
            request.wanted_path() == self.wanted_path(),
            request.wanted_versions() == Some(version),
    {
        FindInstanceRequest { path: self.path, version: Some(version) }
    }

    /// Whether `instance` is one that this request asks for.
    pub fn selects(&self, instance: &InstanceId) -> (wanted: bool)
        ensures
            wanted == self.admits(instance@),
    {
        if !self.path.names(instance.path()) {
            return false;
        }
        match &self.version {
            Some(range) => instance.version().within(range),
            None => true,
        }
    }

    /// Finds the implementers among `known`, the instances that the
    /// environment knows on this node: those that the request asks for, in
    /// the order in which they were given. Where none of them is asked for,
    /// nothing is found: that is no error.
    ///
    /// `known` holds `MAX_INSTANCES` instances at most, which is more than
    /// fit into memory.
    pub fn find(&self, known: &[Arc<InstanceId>]) -> (found: InstanceVec)
        requires
            known@.len() <= MAX_INSTANCES,
        ensures
            found@ == instance_views(known@).filter(self.admitted()),
            (forall|i: int| 0 <= i < known@.len() ==> !self.admits((#[trigger] known@[i])@))
                ==> found@ == Seq::<InstanceIdView>::empty(),
    {
        let mut found = instances_new();
        let mut i: usize = 0;
        assert(instance_views(known@).take(0) =~= Seq::<InstanceIdView>::empty());
        while i < known.len()
            invariant
                i <= known@.len() <= MAX_INSTANCES,
                found@ == instance_views(known@).take(i as int).filter(self.admitted()),
                found@.len() <= i,
            decreases known@.len() - i,
        {
            proof {
                let before = instance_views(known@).take(i as int);
                let after = instance_views(known@).take(i + 1);
                assert(after.drop_last() =~= before);
                assert(after.last() == known@[i as int]@);
                reveal(Seq::filter);
                assert(after.filter(self.admitted()) == if self.admits(after.last()) {
                    before.filter(self.admitted()).push(after.last())
                } else {
                    before.filter(self.admitted())
                });
            }
            if self.selects(&known[i]) {
                instances_push(&mut found, Arc::clone(&known[i]));
            }
            i += 1;
        }
        proof {
            assert(instance_views(known@).take(i as int) =~= instance_views(known@));
            if forall|i: int| 0 <= i < known@.len() ==> !self.admits((#[trigger] known@[i])@) {
                assert forall|i: int| 0 <= i < instance_views(known@).len() implies !self.admits(
                    #[trigger] instance_views(known@)[i],
                ) by {
                    assert(instance_views(known@)[i] == known@[i]@);
                }
                find_nothing_among_strangers(*self, instance_views(known@));
            }
        }
        found
    }

    /// Path of the interface.
    pub fn path(&self) -> (p: &LocalPath<'a>)
        ensures
            p@ == self.wanted_path(),
    {
        &self.path
    }

    /// Version constraints of the interface.
    pub fn version(&self) -> (v: &Option<Range<Version>>)
        ensures
            *v == self.wanted_versions(),
    {
        &self.version
    }
}

/// A search among instances of which the request asks for none finds nothing.
pub proof fn find_nothing_among_strangers(request: FindInstanceRequest, known: Seq<InstanceIdView>)
    requires
        forall|i: int| 0 <= i < known.len() ==> !request.admits(#[trigger] known[i]),
    ensures
        known.filter(request.admitted()) == Seq::<InstanceIdView>::empty(),
{
    known.lemma_all_neg_filter_empty(request.admitted());
}

} // verus!
