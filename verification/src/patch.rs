//! The registry patcher: inserts new text into an existing registry file
//! immediately before the file's fixed closing marker. The file's bytes are
//! read and written back outside the library; this module computes the
//! patched contents, and refuses to patch a file whose trailing bytes do not
//! match the expected marker instead of corrupting it silently.

use vstd::prelude::*;

verus! {

/// One of the three well-known registry files a generation run extends.
/// Each has a fixed path and ends with a fixed closing marker.
#[derive(Clone, Copy, Debug, PartialEq, Eq, Structural)]
pub enum RegistryTarget {
    /// The route-name enumeration.
    RouteEnum,
    /// The route table.
    RouteTable,
    /// The navigation tree.
    NavTree,
}

impl RegistryTarget {
    /// The well-known path of this registry file.
    pub open spec fn spec_path(self) -> Seq<char> {
        match self {
            RegistryTarget::RouteEnum => "./src/app/constants/routes.ts"@,
            RegistryTarget::RouteTable => "./src/app/_routes.ts"@,
            RegistryTarget::NavTree => "./src/app/_nav.ts"@,
        }
    }

    /// The well-known path of this registry file.
    pub fn path(&self) -> (r: &'static str)
        ensures
            r@ == self.spec_path(),
    {
        match self {
            RegistryTarget::RouteEnum => "./src/app/constants/routes.ts",
            RegistryTarget::RouteTable => "./src/app/_routes.ts",
            RegistryTarget::NavTree => "./src/app/_nav.ts",
        }
    }

    /// The fixed closing marker this registry file must end with: the
    /// enumeration closes with a brace and newline, the two list registries
    /// with a bracket, a semicolon and a newline.
    pub open spec fn spec_marker(self) -> Seq<u8> {
        match self {
            RegistryTarget::RouteEnum => seq![125u8, 10u8],
            RegistryTarget::RouteTable => seq![93u8, 59u8, 10u8],
            RegistryTarget::NavTree => seq![93u8, 59u8, 10u8],
        }
    }

    /// The fixed closing marker this registry file must end with.
    pub fn marker(&self) -> (r: Vec<u8>)
        ensures
            r@ == self.spec_marker(),
    {
        let mut r: Vec<u8> = Vec::new();
        match self {
            RegistryTarget::RouteEnum => {
                r.push(125);
                r.push(10);
            },
            RegistryTarget::RouteTable => {
                r.push(93);
                r.push(59);
                r.push(10);
            },
            RegistryTarget::NavTree => {
                r.push(93);
                r.push(59);
                r.push(10);
            },
        }
        proof {
            assert(r@ =~= self.spec_marker());
        }
        r
    }
}

/// Why a registry patch was refused.
#[derive(Clone, Copy, Debug, PartialEq, Eq, Structural)]
pub enum PatchError {
    /// The file is shorter than the expected closing marker.
    FileTooShort,
    /// The file does not end with the expected closing marker.
    MarkerMismatch,
}

/// Whether the contents end with the marker.
pub open spec fn ends_with(contents: Seq<u8>, marker: Seq<u8>) -> bool {
    &&& contents.len() >= marker.len()
    &&& contents.subrange(contents.len() - marker.len(), contents.len() as int) == marker
}

/// The patched contents: everything up to the trailing `k` bytes, then the
/// insertion, then the original trailing `k` bytes.
pub open spec fn spec_patch(contents: Seq<u8>, insertion: Seq<u8>, k: int) -> Seq<u8> {
    contents.subrange(0, contents.len() - k) + insertion + contents.subrange(
        contents.len() - k,
        contents.len() as int,
    )
}

/// Computes the patched contents of a registry file: the insertion lands
/// immediately before the file's trailing marker, which is re-emitted after
/// it. Returns the patched bytes exactly when the file ends with the
/// expected marker; otherwise reports what was wrong and leaves the file to
/// be written untouched.
pub fn patch_registry(contents: &Vec<u8>, insertion: &Vec<u8>, marker: &Vec<u8>) -> (r: Result<
    Vec<u8>,
    PatchError,
>)
    ensures
        r is Ok <==> ends_with(contents@, marker@),
        match r {
            Ok(out) => out@ == spec_patch(contents@, insertion@, marker@.len() as int),
            Err(PatchError::FileTooShort) => contents@.len() < marker@.len(),
            Err(PatchError::MarkerMismatch) => contents@.len() >= marker@.len() && !ends_with(
                contents@,
                marker@,
            ),
        },
{
    let n = contents.len();
    let k = marker.len();
    if n < k {
        return Err(PatchError::FileTooShort);
    }
    let mut i: usize = 0;
    while i < k
        invariant
            n == contents@.len(),
            k == marker@.len(),
            k <= n,
            0 <= i <= k,
            forall|t: int| 0 <= t < i ==> contents@[n - k + t] == marker@[t],
        decreases k - i,
    {
        if contents[n - k + i] != marker[i] {
            proof {
                let tail = contents@.subrange(n - k, n as int);
                assert(tail[i as int] == contents@[n - k + i]);
                assert(tail != marker@);
            }
            return Err(PatchError::MarkerMismatch);
        }
        i += 1;
    }
    proof {
        assert(contents@.subrange(n - k, n as int) =~= marker@);
    }
    let mut out: Vec<u8> = Vec::new();
    let mut j: usize = 0;
    while j < n - k
        invariant
            n == contents@.len(),
            k == marker@.len(),
            k <= n,
            0 <= j <= n - k,
            out@ == contents@.subrange(0, j as int),
        decreases n - k - j,
    {
        out.push(contents[j]);
        proof {
            assert(out@ =~= contents@.subrange(0, j + 1));
        }
        j += 1;
    }
    let m = insertion.len();
    let mut t: usize = 0;
    while t < m
        invariant
            n == contents@.len(),
            k == marker@.len(),
            m == insertion@.len(),
            k <= n,
            0 <= t <= m,
            out@ == contents@.subrange(0, n - k) + insertion@.subrange(0, t as int),
        decreases m - t,
    {
        out.push(insertion[t]);
        proof {
            assert(out@ =~= contents@.subrange(0, n - k) + insertion@.subrange(0, t + 1));
        }
        t += 1;
    }
    let mut u: usize = n - k;
    while u < n
        invariant
            n == contents@.len(),
            k == marker@.len(),
            m == insertion@.len(),
            k <= n,
            n - k <= u <= n,
            out@ == contents@.subrange(0, n - k) + insertion@ + contents@.subrange(
                n - k,
                u as int,
            ),
        decreases n - u,
    {
        out.push(contents[u]);
        proof {
            assert(out@ =~= contents@.subrange(0, n - k) + insertion@ + contents@.subrange(
                n - k,
                u + 1,
            ));
        }
        u += 1;
    }
    proof {
        assert(insertion@.subrange(0, m as int) =~= insertion@);
        assert(contents@.subrange(n - k, (n - k) as int) =~= Seq::<u8>::empty());
        assert(out@ =~= spec_patch(contents@, insertion@, k as int));
    }
    Ok(out)
}

/// Law: for a file whose last K bytes equal the expected marker, the patch
/// grows the file by exactly the insertion's length, the insertion stands
/// immediately before the original trailing K bytes, and those K bytes are
/// unchanged and still terminate the file.
pub proof fn lemma_registry_patch(contents: Seq<u8>, insertion: Seq<u8>, marker: Seq<u8>)
    requires
        ends_with(contents, marker),
    ensures
        spec_patch(contents, insertion, marker.len() as int).len() == contents.len()
            + insertion.len(),
        ends_with(spec_patch(contents, insertion, marker.len() as int), marker),
        spec_patch(contents, insertion, marker.len() as int).subrange(
            contents.len() + insertion.len() - marker.len(),
            (contents.len() + insertion.len()) as int,
        ) == contents.subrange(contents.len() - marker.len(), contents.len() as int),
        spec_patch(contents, insertion, marker.len() as int).subrange(
            contents.len() - marker.len(),
            contents.len() + insertion.len() - marker.len(),
        ) == insertion,
        spec_patch(contents, insertion, marker.len() as int).subrange(
            0,
            contents.len() - marker.len(),
        ) == contents.subrange(0, contents.len() - marker.len()),
{
    let k = marker.len() as int;
    let out = spec_patch(contents, insertion, k);
    assert(out.subrange(out.len() - k, out.len() as int) =~= contents.subrange(
        contents.len() - k,
        contents.len() as int,
    ));
    assert(out.subrange(contents.len() - k, contents.len() + insertion.len() - k) =~= insertion);
    assert(out.subrange(0, contents.len() - k) =~= contents.subrange(0, contents.len() - k));
}

} // verus!
