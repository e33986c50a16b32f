//! ZIP format features and the specification versions they need.
use vstd::prelude::*;

use crate::bytes::le16;

verus! {

broadcast use crate::bytes::group_le_lengths;

/// A ZIP file format feature needed to extract an entry, as listed in section
/// 4.4.3.1 of the ZIP file specification. The variants are declared from the
/// highest version needed to extract down to the lowest.
#[derive(Debug, Clone, Copy, PartialEq, Eq, Structural)]
#[non_exhaustive]
pub enum ZipFeature {
    Zip64Extensions,
    DeflateCompression,
    BasicFeatures,
}

impl ZipFeature {
    /// The minimum specification version, times ten, needed to extract an
    /// entry that uses this feature.
    pub open spec fn spec_version(self) -> u16 {
        match self {
            ZipFeature::Zip64Extensions => 45,
            ZipFeature::DeflateCompression => 20,
            ZipFeature::BasicFeatures => 10,
        }
    }

    /// Converts this feature to the minimum ZIP specification version needed to
    /// extract the affected entry (45 stands for 4.5).
    pub fn to_version_needed_to_extract(self) -> (r: u16)
        ensures
            r == self.spec_version(),
    {
        match self {
            ZipFeature::Zip64Extensions => 45,
            ZipFeature::DeflateCompression => 20,
            ZipFeature::BasicFeatures => 10,
        }
    }
}

/// A set of ZIP features, one flag per feature.
#[derive(Debug, Clone, Copy, PartialEq, Eq, Structural)]
pub struct ZipFeatureSet {
    pub zip64_extensions: bool,
    pub deflate_compression: bool,
    pub basic_features: bool,
}

impl View for ZipFeatureSet {
    type V = Set<ZipFeature>;

    open spec fn view(&self) -> Set<ZipFeature> {
        Set::new(
            |f: ZipFeature|
                match f {
                    ZipFeature::Zip64Extensions => self.zip64_extensions,
                    ZipFeature::DeflateCompression => self.deflate_compression,
                    ZipFeature::BasicFeatures => self.basic_features,
                },
        )
    }
}

impl ZipFeatureSet {
    /// The set with no feature in it.
    pub fn empty() -> (r: ZipFeatureSet)
        ensures
            r@ == Set::<ZipFeature>::empty(),
    {
        let r = ZipFeatureSet {
            zip64_extensions: false,
            deflate_compression: false,
            basic_features: false,
        };
        assert(r@ =~= Set::<ZipFeature>::empty());
        r
    }

    /// Adds `feature` to this set.
    pub fn insert(&mut self, feature: ZipFeature)
        ensures
            final(self)@ == old(self)@.insert(feature),
    {
        match feature {
            ZipFeature::Zip64Extensions => self.zip64_extensions = true,
            ZipFeature::DeflateCompression => self.deflate_compression = true,
            ZipFeature::BasicFeatures => self.basic_features = true,
        }
        assert(self@ =~= old(self)@.insert(feature));
    }
}

/// The version needed to extract an entry that uses the features in
/// `features`: that of the highest ranked feature present, and that of
/// `BasicFeatures` when there is none.
pub open spec fn version_needed(features: Set<ZipFeature>) -> u16 {
    if features.contains(ZipFeature::Zip64Extensions) {
        ZipFeature::Zip64Extensions.spec_version()
    } else if features.contains(ZipFeature::DeflateCompression) {
        ZipFeature::DeflateCompression.spec_version()
    } else {
        ZipFeature::BasicFeatures.spec_version()
    }
}

/// Returns the ZIP specification version needed to extract an entry that uses
/// the features in `zip_features`. Features are tried from the highest ranked
/// down, and the first one present decides.
pub fn version_needed_to_extract(zip_features: &ZipFeatureSet) -> (r: u16)
    ensures
        r == version_needed(zip_features@),
{
    let highest = if zip_features.zip64_extensions {
        ZipFeature::Zip64Extensions
    } else if zip_features.deflate_compression {
        ZipFeature::DeflateCompression
    } else {
        ZipFeature::BasicFeatures
    };
    highest.to_version_needed_to_extract()
}

/// The two bytes of the "version made by" field: those of Info-ZIP zip 3.0 on
/// Unix when spoofing, else the highest specification version supported.
pub open spec fn version_made_by_bytes(spoof_version_made_by: bool) -> Seq<u8> {
    if spoof_version_made_by {
        seq![30u8, 3u8]
    } else {
        le16(ZipFeature::Zip64Extensions.spec_version())
    }
}

/// Returns the value of the "version made by" field of several ZIP records.
///
/// The ZIP specification asks for the highest specification version that the
/// writer supports, but some programs write their own version there, so the
/// field gives away which program wrote an archive. When spoofing, the field
/// reads as Info-ZIP zip 3.0 on Unix, a common tool.
pub fn get_version_made_by(spoof_version_made_by: bool) -> (r: [u8; 2])
    ensures
        r@ == version_made_by_bytes(spoof_version_made_by),
{
    if spoof_version_made_by {
        let r: [u8; 2] = [30, 3];
        assert(r@ =~= seq![30u8, 3u8]);
        r
    } else {
        let v = ZipFeature::Zip64Extensions.to_version_needed_to_extract();
        let r: [u8; 2] = [(v % 256) as u8, (v / 256) as u8];
        reveal(le16);
        assert(r@ =~= le16(v));
        r
    }
}

/// The version needed depends on which features are present alone: the order
/// in which two features are added to a set, or adding one twice, does not
/// change it.
pub proof fn lemma_version_needed_insertion_order(
    features: Set<ZipFeature>,
    a: ZipFeature,
    b: ZipFeature,
)
    ensures
        version_needed(features.insert(a).insert(b)) == version_needed(
            features.insert(b).insert(a),
        ),
        version_needed(features.insert(a).insert(a)) == version_needed(features.insert(a)),
{
    assert(features.insert(a).insert(b) =~= features.insert(b).insert(a));
    assert(features.insert(a).insert(a) =~= features.insert(a));
}

/// The version needed is the highest version any feature present needs, and
/// that of `BasicFeatures` for an empty set.
pub proof fn lemma_version_needed_is_highest(features: Set<ZipFeature>)
    ensures
        forall|f: ZipFeature| #[trigger]
            features.contains(f) ==> f.spec_version() <= version_needed(features),
        version_needed(features) == ZipFeature::BasicFeatures.spec_version() || exists|
            f: ZipFeature,
        | #[trigger] features.contains(f) && f.spec_version() == version_needed(features),
        features.is_empty() ==> version_needed(features)
            == ZipFeature::BasicFeatures.spec_version(),
{
    if features.contains(ZipFeature::Zip64Extensions) {
        assert(features.contains(ZipFeature::Zip64Extensions));
    } else if features.contains(ZipFeature::DeflateCompression) {
        assert(features.contains(ZipFeature::DeflateCompression));
    }
}

} // verus!
