use vstd::prelude::*;

use crate::error::RecorderError;

verus! {

/// One capture-capable input device, as the host audio subsystem lists it.
pub struct DeviceDescriptor {
    /// Stable identifier, unique within one listing.
    pub id: String,
    /// Human-readable name.
    pub label: String,
    /// Number of input channels.
    pub channels: u16,
    /// Lowest supported sample rate, in Hz.
    pub min_sample_rate: u32,
    /// Highest supported sample rate, in Hz.
    pub max_sample_rate: u32,
}

impl DeviceDescriptor {
    /// A field-for-field copy.
    pub fn duplicate(&self) -> (r: Self)
        ensures
            r == *self,
    {
        DeviceDescriptor {
            id: self.id.clone(),
            label: self.label.clone(),
            channels: self.channels,
            min_sample_rate: self.min_sample_rate,
            max_sample_rate: self.max_sample_rate,
        }
    }
}

/// A descriptor the catalog can hand out: a non-empty id and a sane rate range.
pub open spec fn descriptor_valid(d: DeviceDescriptor) -> bool {
    d.id@.len() > 0 && d.min_sample_rate <= d.max_sample_rate
}

/// No two entries share an id.
pub open spec fn ids_unique(s: Seq<DeviceDescriptor>) -> bool {
    forall|i: int, j: int|
        0 <= i < s.len() && 0 <= j < s.len() && i != j ==> s[i].id@ != s[j].id@
}

/// A listing the catalog accepts: every entry valid and no id repeated.
pub open spec fn listing_well_formed(s: Seq<DeviceDescriptor>) -> bool {
    &&& forall|i: int| 0 <= i < s.len() ==> descriptor_valid(#[trigger] s[i])
    &&& ids_unique(s)
}

/// Whether some entry of `s` carries the id `id`.
pub open spec fn lists_id(s: Seq<DeviceDescriptor>, id: Seq<char>) -> bool {
    exists|i: int| 0 <= i < s.len() && s[i].id@ == id
}

/// Whether the listing breaks the catalog's rules.
pub fn listing_is_malformed(list: &Vec<DeviceDescriptor>) -> (r: bool)
    ensures
        r == !listing_well_formed(list@),
{
    let n = list.len();
    let mut i: usize = 0;
    while i < n
        invariant
            n == list@.len(),
            i <= n,
            forall|k: int| 0 <= k < i ==> descriptor_valid(#[trigger] list@[k]),
            forall|a: int, b: int|
                0 <= a < i && 0 <= b < n && a != b ==> list@[a].id@ != list@[b].id@,
        decreases n - i,
    {
        let d = &list[i];
        if d.id.as_str().is_empty() || d.min_sample_rate > d.max_sample_rate {
            return true;
        }
        let mut j: usize = 0;
        while j < n
            invariant
                n == list@.len(),
                i < n,
                j <= n,
                forall|b: int| 0 <= b < j && b != i ==> list@[i as int].id@ != list@[b].id@,
            decreases n - j,
        {
            if j != i && list[j].id == list[i].id {
                return true;
            }
            j = j + 1;
        }
        i = i + 1;
    }
    false
}

/// The catalog's answer to one host query: all of the listing or nothing.
/// `None` stands for a host subsystem that could not be reached.
pub fn catalog_from_listing(listing: Option<Vec<DeviceDescriptor>>) -> (r: Result<
    Vec<DeviceDescriptor>,
    RecorderError,
>)
    ensures
        match listing {
            None => r == Err::<Vec<DeviceDescriptor>, RecorderError>(
                RecorderError::DeviceQueryError,
            ),
            Some(l) => if listing_well_formed(l@) {
                r == Ok::<Vec<DeviceDescriptor>, RecorderError>(l)
            } else {
                r == Err::<Vec<DeviceDescriptor>, RecorderError>(RecorderError::DeviceQueryError)
            },
        },
{
    match listing {
        None => Err(RecorderError::DeviceQueryError),
        Some(l) => {
            if listing_is_malformed(&l) {
                Err(RecorderError::DeviceQueryError)
            } else {
                Ok(l)
            }
        },
    }
}

} // verus!
