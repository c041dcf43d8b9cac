//! The session descriptor: what a client asks the feature service to compute.

use vstd::prelude::*;

verus! {

/// What a descriptor holds, as mathematical values.
pub struct DescriptorView {
    pub features: Seq<Seq<char>>,
    pub sample_rate: nat,
    pub hop_size: nat,
    pub memory: nat,
}

/// The feature names that a request asks for and the framing it announces.
///
/// A descriptor cannot be changed once it is made, and its three numbers are
/// positive.
pub struct SessionDescriptor {
    features: Vec<String>,
    sample_rate: u32,
    hop_size: u32,
    memory: u32,
}

/// The characters of each name in turn.
pub open spec fn names_of(features: Seq<String>) -> Seq<Seq<char>> {
    features.map_values(|s: String| s@)
}

impl View for SessionDescriptor {
    type V = DescriptorView;

    closed spec fn view(&self) -> DescriptorView {
        DescriptorView {
            features: names_of(self.features@),
            sample_rate: self.sample_rate as nat,
            hop_size: self.hop_size as nat,
            memory: self.memory as nat,
        }
    }
}

impl DescriptorView {
    /// Sample rate, hop size and memory depth are all at least one.
    pub open spec fn valid(self) -> bool {
        &&& self.sample_rate >= 1
        &&& self.hop_size >= 1
        &&& self.memory >= 1
    }
}

impl SessionDescriptor {
    #[verifier::type_invariant]
    spec fn positive(self) -> bool {
        self@.valid()
    }

    /// A descriptor of the given names, sample rate in Hz, hop size in samples
    /// per analysis frame, and number of trailing frames that the service
    /// keeps. `None` where one of the three numbers is zero.
    pub fn new(features: Vec<String>, sample_rate: u32, hop_size: u32, memory: u32) -> (r: Option<
        Self,
    >)
        ensures
            r is Some <==> sample_rate >= 1 && hop_size >= 1 && memory >= 1,
            r is Some ==> r.unwrap()@ == (DescriptorView {
                features: names_of(features@),
                sample_rate: sample_rate as nat,
                hop_size: hop_size as nat,
                memory: memory as nat,
            }),
    {
        if sample_rate == 0 || hop_size == 0 || memory == 0 {
            None
        } else {
            Some(SessionDescriptor { features, sample_rate, hop_size, memory })
        }
    }

    /// The requested feature names, in the order given.
    pub fn features(&self) -> (r: &Vec<String>)
        ensures
            names_of(r@) == self@.features,
    {
        &self.features
    }

    /// The sample rate in Hz.
    pub fn sample_rate(&self) -> (r: u32)
        ensures
            r == self@.sample_rate,
            r >= 1,
    {
        proof {
            use_type_invariant(self);
        }
        self.sample_rate
    }

    /// The number of samples per analysis frame.
    pub fn hop_size(&self) -> (r: u32)
        ensures
            r == self@.hop_size,
            r >= 1,
    {
        proof {
            use_type_invariant(self);
        }
        self.hop_size
    }

    /// The number of trailing analysis frames that the service keeps.
    pub fn memory(&self) -> (r: u32)
        ensures
            r == self@.memory,
            r >= 1,
    {
        proof {
            use_type_invariant(self);
        }
        self.memory
    }
}

} // verus!
