use vstd::prelude::*;
use vstd::string::*;

verus! {

/// The location that stands for a uniform the program does not have; setting a
/// uniform there is a no-op.
pub const NO_LOCATION: i32 = -1;

/// The uniforms whose locations are looked up once after linking, in lookup order.
pub open spec fn uniform_names_spec() -> Seq<Seq<char>> {
    seq!["uModelMatrix"@, "uViewMatrix"@, "uProjectionMatrix"@]
}

/// The vertex attributes, each bound to the location of its position in this list.
pub open spec fn attrib_names_spec() -> Seq<Seq<char>> {
    seq!["aPosition"@, "aColor"@]
}

pub fn uniform_names() -> (r: Vec<&'static str>)
    ensures
        r@.map_values(|s: &str| s@) == uniform_names_spec(),
{
    let r = vec!["uModelMatrix", "uViewMatrix", "uProjectionMatrix"];
    assert(r@.map_values(|s: &str| s@) =~= uniform_names_spec());
    r
}

pub fn attrib_names() -> (r: Vec<&'static str>)
    ensures
        r@.map_values(|s: &str| s@) == attrib_names_spec(),
{
    let r = vec!["aPosition", "aColor"];
    assert(r@.map_values(|s: &str| s@) =~= attrib_names_spec());
    r
}

/// Whether two strings hold the same characters.
pub fn str_equal(a: &str, b: &str) -> (r: bool)
    ensures
        r == (a@ == b@),
{
    let n = a.unicode_len();
    if n != b.unicode_len() {
        return false;
    }
    let mut i: usize = 0;
    while i < n
        invariant
            n == a@.len(),
            n == b@.len(),
            0 <= i <= n,
            forall|j: int| 0 <= j < i ==> a@[j] == b@[j],
        decreases n - i,
    {
        if a.get_char(i) != b.get_char(i) {
            return false;
        }
        i = i + 1;
    }
    assert(a@ =~= b@);
    true
}

/// The length of the text at the front of a diagnostic log buffer: the bytes up
/// to the first NUL, or all of them where there is none.
pub fn info_log_len(log: &[u8]) -> (r: usize)
    ensures
        r <= log@.len(),
        forall|j: int| 0 <= j < r ==> log@[j] != 0,
        r < log@.len() ==> log@[r as int] == 0,
{
    let mut i: usize = 0;
    while i < log.len()
        invariant
            0 <= i <= log@.len(),
            forall|j: int| 0 <= j < i ==> log@[j] != 0,
        decreases log@.len() - i,
    {
        if log[i] == 0 {
            return i;
        }
        i = i + 1;
    }
    i
}

/// A linked shader program, its two shader stages, and the locations of its
/// uniforms, cached in the order of `uniform_names`.
pub struct Program {
    program: u32,
    vertex_shader: u32,
    fragment_shader: u32,
    uniform_locations: Vec<i32>,
}

impl Program {
    pub closed spec fn spec_program(&self) -> u32 {
        self.program
    }

    pub closed spec fn spec_vertex_shader(&self) -> u32 {
        self.vertex_shader
    }

    pub closed spec fn spec_fragment_shader(&self) -> u32 {
        self.fragment_shader
    }

    /// The cached location of each uniform of `uniform_names_spec`, in that order.
    pub closed spec fn spec_locations(&self) -> Seq<i32> {
        self.uniform_locations@
    }

    /// A location is cached for every uniform name.
    pub open spec fn wf(&self) -> bool {
        self.spec_locations().len() == uniform_names_spec().len()
    }

    /// The location that `uniform_location` gives for `name`.
    pub open spec fn location_of(&self, name: Seq<char>) -> i32 {
        if name == uniform_names_spec()[0] {
            self.spec_locations()[0]
        } else if name == uniform_names_spec()[1] {
            self.spec_locations()[1]
        } else if name == uniform_names_spec()[2] {
            self.spec_locations()[2]
        } else {
            NO_LOCATION
        }
    }

    /// Holds a program linked from its two shaders with `attrib_bindings[i]` bound
    /// to location `i`, and the locations looked up after linking for each name of
    /// `uniform_names`, in that order. It is accepted only where the attributes
    /// bound are those of `attrib_names`, in that order, and every uniform name
    /// has a location.
    pub fn new(
        program: u32,
        vertex_shader: u32,
        fragment_shader: u32,
        attrib_bindings: &Vec<&str>,
        uniform_locations: Vec<i32>,
    ) -> (r: Option<Program>)
        ensures
            r is Some <==> attrib_bindings@.map_values(|s: &str| s@) == attrib_names_spec()
                && uniform_locations@.len() == uniform_names_spec().len(),
            r matches Some(p) ==> p.wf() && p.spec_program() == program && p.spec_vertex_shader()
                == vertex_shader && p.spec_fragment_shader() == fragment_shader
                && p.spec_locations() == uniform_locations@,
    {
        let names = attrib_names();
        if attrib_bindings.len() != names.len() {
            proof {
                assert(attrib_bindings@.map_values(|s: &str| s@).len() != names@.map_values(
                    |s: &str| s@,
                ).len());
            }
            return None;
        }
        let mut i: usize = 0;
        while i < attrib_bindings.len()
            invariant
                names@.map_values(|s: &str| s@) == attrib_names_spec(),
                attrib_bindings@.len() == names@.len(),
                0 <= i <= attrib_bindings@.len(),
                forall|j: int| 0 <= j < i ==> #[trigger] attrib_bindings@[j]@ == names@[j]@,
            decreases attrib_bindings@.len() - i,
        {
            if !str_equal(attrib_bindings[i], names[i]) {
                proof {
                    assert(attrib_bindings@.map_values(|s: &str| s@)[i as int] != attrib_names_spec()[i as int]);
                }
                return None;
            }
            i = i + 1;
        }
        assert(attrib_bindings@.map_values(|s: &str| s@) =~= attrib_names_spec()) by {
            assert forall|j: int| 0 <= j < attrib_bindings@.len() implies attrib_bindings@.map_values(
                |s: &str| s@,
            )[j] == attrib_names_spec()[j] by {
                assert(attrib_bindings@[j]@ == names@[j]@);
                assert(names@.map_values(|s: &str| s@)[j] == names@[j]@);
            }
        }
        if uniform_locations.len() != 3 {
            return None;
        }
        Some(Program { program, vertex_shader, fragment_shader, uniform_locations })
    }

    pub fn program(&self) -> (r: u32)
        ensures
            r == self.spec_program(),
    {
        self.program
    }

    pub fn vertex_shader(&self) -> (r: u32)
        ensures
            r == self.spec_vertex_shader(),
    {
        self.vertex_shader
    }

    pub fn fragment_shader(&self) -> (r: u32)
        ensures
            r == self.spec_fragment_shader(),
    {
        self.fragment_shader
    }

    /// The cached location of the uniform `name`, or `NO_LOCATION` for a name
    /// the program does not look up.
    pub fn uniform_location(&self, name: &str) -> (r: i32)
        requires
            self.wf(),
        ensures
            r == self.location_of(name@),
    {
        let names = uniform_names();
        proof {
            assert(names@[0]@ == names@.map_values(|s: &str| s@)[0]);
            assert(names@[1]@ == names@.map_values(|s: &str| s@)[1]);
            assert(names@[2]@ == names@.map_values(|s: &str| s@)[2]);
        }
        if str_equal(name, names[0]) {
            self.uniform_locations[0]
        } else if str_equal(name, names[1]) {
            self.uniform_locations[1]
        } else if str_equal(name, names[2]) {
            self.uniform_locations[2]
        } else {
            NO_LOCATION
        }
    }
}

} // verus!
