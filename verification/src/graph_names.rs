//! Element and attribute names of the full Gramps XML vocabulary, as bytes.

use vstd::prelude::*;

verus! {

/// The bytes of `people`.
pub open spec fn spec_kw_people() -> Seq<u8> {
    seq![112u8, 101u8, 111u8, 112u8, 108u8, 101u8]
}

pub fn kw_people() -> (a: [u8; 6])
    ensures
        a@ == spec_kw_people(),
{
    let a: [u8; 6] = [112, 101, 111, 112, 108, 101];
    assert(a@ =~= spec_kw_people());
    a
}

/// The bytes of `families`.
pub open spec fn spec_kw_families() -> Seq<u8> {
    seq![102u8, 97u8, 109u8, 105u8, 108u8, 105u8, 101u8, 115u8]
}

pub fn kw_families() -> (a: [u8; 8])
    ensures
        a@ == spec_kw_families(),
{
    let a: [u8; 8] = [102, 97, 109, 105, 108, 105, 101, 115];
    assert(a@ =~= spec_kw_families());
    a
}

/// The bytes of `events`.
pub open spec fn spec_kw_events() -> Seq<u8> {
    seq![101u8, 118u8, 101u8, 110u8, 116u8, 115u8]
}

pub fn kw_events() -> (a: [u8; 6])
    ensures
        a@ == spec_kw_events(),
{
    let a: [u8; 6] = [101, 118, 101, 110, 116, 115];
    assert(a@ =~= spec_kw_events());
    a
}

/// The bytes of `places`.
pub open spec fn spec_kw_places() -> Seq<u8> {
    seq![112u8, 108u8, 97u8, 99u8, 101u8, 115u8]
}

pub fn kw_places() -> (a: [u8; 6])
    ensures
        a@ == spec_kw_places(),
{
    let a: [u8; 6] = [112, 108, 97, 99, 101, 115];
    assert(a@ =~= spec_kw_places());
    a
}

/// The bytes of `sources`.
pub open spec fn spec_kw_sources() -> Seq<u8> {
    seq![115u8, 111u8, 117u8, 114u8, 99u8, 101u8, 115u8]
}

pub fn kw_sources() -> (a: [u8; 7])
    ensures
        a@ == spec_kw_sources(),
{
    let a: [u8; 7] = [115, 111, 117, 114, 99, 101, 115];
    assert(a@ =~= spec_kw_sources());
    a
}

/// The bytes of `citations`.
pub open spec fn spec_kw_citations() -> Seq<u8> {
    seq![99u8, 105u8, 116u8, 97u8, 116u8, 105u8, 111u8, 110u8, 115u8]
}

pub fn kw_citations() -> (a: [u8; 9])
    ensures
        a@ == spec_kw_citations(),
{
    let a: [u8; 9] = [99, 105, 116, 97, 116, 105, 111, 110, 115];
    assert(a@ =~= spec_kw_citations());
    a
}

/// The bytes of `repositories`.
pub open spec fn spec_kw_repositories() -> Seq<u8> {
    seq![114u8, 101u8, 112u8, 111u8, 115u8, 105u8, 116u8, 111u8, 114u8, 105u8, 101u8, 115u8]
}

pub fn kw_repositories() -> (a: [u8; 12])
    ensures
        a@ == spec_kw_repositories(),
{
    let a: [u8; 12] = [114, 101, 112, 111, 115, 105, 116, 111, 114, 105, 101, 115];
    assert(a@ =~= spec_kw_repositories());
    a
}

/// The bytes of `objects`.
pub open spec fn spec_kw_objects() -> Seq<u8> {
    seq![111u8, 98u8, 106u8, 101u8, 99u8, 116u8, 115u8]
}

pub fn kw_objects() -> (a: [u8; 7])
    ensures
        a@ == spec_kw_objects(),
{
    let a: [u8; 7] = [111, 98, 106, 101, 99, 116, 115];
    assert(a@ =~= spec_kw_objects());
    a
}

/// The bytes of `media`.
pub open spec fn spec_kw_media() -> Seq<u8> {
    seq![109u8, 101u8, 100u8, 105u8, 97u8]
}

pub fn kw_media() -> (a: [u8; 5])
    ensures
        a@ == spec_kw_media(),
{
    let a: [u8; 5] = [109, 101, 100, 105, 97];
    assert(a@ =~= spec_kw_media());
    a
}

/// The bytes of `notes`.
pub open spec fn spec_kw_notes() -> Seq<u8> {
    seq![110u8, 111u8, 116u8, 101u8, 115u8]
}

pub fn kw_notes() -> (a: [u8; 5])
    ensures
        a@ == spec_kw_notes(),
{
    let a: [u8; 5] = [110, 111, 116, 101, 115];
    assert(a@ =~= spec_kw_notes());
    a
}

/// The bytes of `tags`.
pub open spec fn spec_kw_tags() -> Seq<u8> {
    seq![116u8, 97u8, 103u8, 115u8]
}

pub fn kw_tags() -> (a: [u8; 4])
    ensures
        a@ == spec_kw_tags(),
{
    let a: [u8; 4] = [116, 97, 103, 115];
    assert(a@ =~= spec_kw_tags());
    a
}

/// The bytes of `place`.
pub open spec fn spec_kw_place() -> Seq<u8> {
    seq![112u8, 108u8, 97u8, 99u8, 101u8]
}

pub fn kw_place() -> (a: [u8; 5])
    ensures
        a@ == spec_kw_place(),
{
    let a: [u8; 5] = [112, 108, 97, 99, 101];
    assert(a@ =~= spec_kw_place());
    a
}

/// The bytes of `source`.
pub open spec fn spec_kw_source() -> Seq<u8> {
    seq![115u8, 111u8, 117u8, 114u8, 99u8, 101u8]
}

pub fn kw_source() -> (a: [u8; 6])
    ensures
        a@ == spec_kw_source(),
{
    let a: [u8; 6] = [115, 111, 117, 114, 99, 101];
    assert(a@ =~= spec_kw_source());
    a
}

/// The bytes of `citation`.
pub open spec fn spec_kw_citation() -> Seq<u8> {
    seq![99u8, 105u8, 116u8, 97u8, 116u8, 105u8, 111u8, 110u8]
}

pub fn kw_citation() -> (a: [u8; 8])
    ensures
        a@ == spec_kw_citation(),
{
    let a: [u8; 8] = [99, 105, 116, 97, 116, 105, 111, 110];
    assert(a@ =~= spec_kw_citation());
    a
}

/// The bytes of `repository`.
pub open spec fn spec_kw_repository() -> Seq<u8> {
    seq![114u8, 101u8, 112u8, 111u8, 115u8, 105u8, 116u8, 111u8, 114u8, 121u8]
}

pub fn kw_repository() -> (a: [u8; 10])
    ensures
        a@ == spec_kw_repository(),
{
    let a: [u8; 10] = [114, 101, 112, 111, 115, 105, 116, 111, 114, 121];
    assert(a@ =~= spec_kw_repository());
    a
}

/// The bytes of `object`.
pub open spec fn spec_kw_object() -> Seq<u8> {
    seq![111u8, 98u8, 106u8, 101u8, 99u8, 116u8]
}

pub fn kw_object() -> (a: [u8; 6])
    ensures
        a@ == spec_kw_object(),
{
    let a: [u8; 6] = [111, 98, 106, 101, 99, 116];
    assert(a@ =~= spec_kw_object());
    a
}

/// The bytes of `note`.
pub open spec fn spec_kw_note() -> Seq<u8> {
    seq![110u8, 111u8, 116u8, 101u8]
}

pub fn kw_note() -> (a: [u8; 4])
    ensures
        a@ == spec_kw_note(),
{
    let a: [u8; 4] = [110, 111, 116, 101];
    assert(a@ =~= spec_kw_note());
    a
}

/// The bytes of `tag`.
pub open spec fn spec_kw_tag() -> Seq<u8> {
    seq![116u8, 97u8, 103u8]
}

pub fn kw_tag() -> (a: [u8; 3])
    ensures
        a@ == spec_kw_tag(),
{
    let a: [u8; 3] = [116, 97, 103];
    assert(a@ =~= spec_kw_tag());
    a
}

/// The bytes of `placeref`.
pub open spec fn spec_kw_placeref() -> Seq<u8> {
    seq![112u8, 108u8, 97u8, 99u8, 101u8, 114u8, 101u8, 102u8]
}

pub fn kw_placeref() -> (a: [u8; 8])
    ensures
        a@ == spec_kw_placeref(),
{
    let a: [u8; 8] = [112, 108, 97, 99, 101, 114, 101, 102];
    assert(a@ =~= spec_kw_placeref());
    a
}

/// The bytes of `personref`.
pub open spec fn spec_kw_personref() -> Seq<u8> {
    seq![112u8, 101u8, 114u8, 115u8, 111u8, 110u8, 114u8, 101u8, 102u8]
}

pub fn kw_personref() -> (a: [u8; 9])
    ensures
        a@ == spec_kw_personref(),
{
    let a: [u8; 9] = [112, 101, 114, 115, 111, 110, 114, 101, 102];
    assert(a@ =~= spec_kw_personref());
    a
}

/// The bytes of `reporef`.
pub open spec fn spec_kw_reporef() -> Seq<u8> {
    seq![114u8, 101u8, 112u8, 111u8, 114u8, 101u8, 102u8]
}

pub fn kw_reporef() -> (a: [u8; 7])
    ensures
        a@ == spec_kw_reporef(),
{
    let a: [u8; 7] = [114, 101, 112, 111, 114, 101, 102];
    assert(a@ =~= spec_kw_reporef());
    a
}

/// The bytes of `citationref`.
pub open spec fn spec_kw_citationref() -> Seq<u8> {
    seq![99u8, 105u8, 116u8, 97u8, 116u8, 105u8, 111u8, 110u8, 114u8, 101u8, 102u8]
}

pub fn kw_citationref() -> (a: [u8; 11])
    ensures
        a@ == spec_kw_citationref(),
{
    let a: [u8; 11] = [99, 105, 116, 97, 116, 105, 111, 110, 114, 101, 102];
    assert(a@ =~= spec_kw_citationref());
    a
}

/// The bytes of `noteref`.
pub open spec fn spec_kw_noteref() -> Seq<u8> {
    seq![110u8, 111u8, 116u8, 101u8, 114u8, 101u8, 102u8]
}

pub fn kw_noteref() -> (a: [u8; 7])
    ensures
        a@ == spec_kw_noteref(),
{
    let a: [u8; 7] = [110, 111, 116, 101, 114, 101, 102];
    assert(a@ =~= spec_kw_noteref());
    a
}

/// The bytes of `mediaref`.
pub open spec fn spec_kw_mediaref() -> Seq<u8> {
    seq![109u8, 101u8, 100u8, 105u8, 97u8, 114u8, 101u8, 102u8]
}

pub fn kw_mediaref() -> (a: [u8; 8])
    ensures
        a@ == spec_kw_mediaref(),
{
    let a: [u8; 8] = [109, 101, 100, 105, 97, 114, 101, 102];
    assert(a@ =~= spec_kw_mediaref());
    a
}

/// The bytes of `tagref`.
pub open spec fn spec_kw_tagref() -> Seq<u8> {
    seq![116u8, 97u8, 103u8, 114u8, 101u8, 102u8]
}

pub fn kw_tagref() -> (a: [u8; 6])
    ensures
        a@ == spec_kw_tagref(),
{
    let a: [u8; 6] = [116, 97, 103, 114, 101, 102];
    assert(a@ =~= spec_kw_tagref());
    a
}

/// The bytes of `sourceref`.
pub open spec fn spec_kw_sourceref() -> Seq<u8> {
    seq![115u8, 111u8, 117u8, 114u8, 99u8, 101u8, 114u8, 101u8, 102u8]
}

pub fn kw_sourceref() -> (a: [u8; 9])
    ensures
        a@ == spec_kw_sourceref(),
{
    let a: [u8; 9] = [115, 111, 117, 114, 99, 101, 114, 101, 102];
    assert(a@ =~= spec_kw_sourceref());
    a
}

/// The bytes of `description`.
pub open spec fn spec_kw_description() -> Seq<u8> {
    seq![100u8, 101u8, 115u8, 99u8, 114u8, 105u8, 112u8, 116u8, 105u8, 111u8, 110u8]
}

pub fn kw_description() -> (a: [u8; 11])
    ensures
        a@ == spec_kw_description(),
{
    let a: [u8; 11] = [100, 101, 115, 99, 114, 105, 112, 116, 105, 111, 110];
    assert(a@ =~= spec_kw_description());
    a
}

/// The bytes of `title`.
pub open spec fn spec_kw_title() -> Seq<u8> {
    seq![116u8, 105u8, 116u8, 108u8, 101u8]
}

pub fn kw_title() -> (a: [u8; 5])
    ensures
        a@ == spec_kw_title(),
{
    let a: [u8; 5] = [116, 105, 116, 108, 101];
    assert(a@ =~= spec_kw_title());
    a
}

/// The bytes of `abbrev`.
pub open spec fn spec_kw_abbrev() -> Seq<u8> {
    seq![97u8, 98u8, 98u8, 114u8, 101u8, 118u8]
}

pub fn kw_abbrev() -> (a: [u8; 6])
    ensures
        a@ == spec_kw_abbrev(),
{
    let a: [u8; 6] = [97, 98, 98, 114, 101, 118];
    assert(a@ =~= spec_kw_abbrev());
    a
}

/// The bytes of `author`.
pub open spec fn spec_kw_author() -> Seq<u8> {
    seq![97u8, 117u8, 116u8, 104u8, 111u8, 114u8]
}

pub fn kw_author() -> (a: [u8; 6])
    ensures
        a@ == spec_kw_author(),
{
    let a: [u8; 6] = [97, 117, 116, 104, 111, 114];
    assert(a@ =~= spec_kw_author());
    a
}

/// The bytes of `pubinfo`.
pub open spec fn spec_kw_pubinfo() -> Seq<u8> {
    seq![112u8, 117u8, 98u8, 105u8, 110u8, 102u8, 111u8]
}

pub fn kw_pubinfo() -> (a: [u8; 7])
    ensures
        a@ == spec_kw_pubinfo(),
{
    let a: [u8; 7] = [112, 117, 98, 105, 110, 102, 111];
    assert(a@ =~= spec_kw_pubinfo());
    a
}

/// The bytes of `page`.
pub open spec fn spec_kw_page() -> Seq<u8> {
    seq![112u8, 97u8, 103u8, 101u8]
}

pub fn kw_page() -> (a: [u8; 4])
    ensures
        a@ == spec_kw_page(),
{
    let a: [u8; 4] = [112, 97, 103, 101];
    assert(a@ =~= spec_kw_page());
    a
}

/// The bytes of `desc`.
pub open spec fn spec_kw_desc() -> Seq<u8> {
    seq![100u8, 101u8, 115u8, 99u8]
}

pub fn kw_desc() -> (a: [u8; 4])
    ensures
        a@ == spec_kw_desc(),
{
    let a: [u8; 4] = [100, 101, 115, 99];
    assert(a@ =~= spec_kw_desc());
    a
}

/// The bytes of `path`.
pub open spec fn spec_kw_path() -> Seq<u8> {
    seq![112u8, 97u8, 116u8, 104u8]
}

pub fn kw_path() -> (a: [u8; 4])
    ensures
        a@ == spec_kw_path(),
{
    let a: [u8; 4] = [112, 97, 116, 104];
    assert(a@ =~= spec_kw_path());
    a
}

/// The bytes of `mime`.
pub open spec fn spec_kw_mime() -> Seq<u8> {
    seq![109u8, 105u8, 109u8, 101u8]
}

pub fn kw_mime() -> (a: [u8; 4])
    ensures
        a@ == spec_kw_mime(),
{
    let a: [u8; 4] = [109, 105, 109, 101];
    assert(a@ =~= spec_kw_mime());
    a
}

/// The bytes of `checksum`.
pub open spec fn spec_kw_checksum() -> Seq<u8> {
    seq![99u8, 104u8, 101u8, 99u8, 107u8, 115u8, 117u8, 109u8]
}

pub fn kw_checksum() -> (a: [u8; 8])
    ensures
        a@ == spec_kw_checksum(),
{
    let a: [u8; 8] = [99, 104, 101, 99, 107, 115, 117, 109];
    assert(a@ =~= spec_kw_checksum());
    a
}

/// The bytes of `text`.
pub open spec fn spec_kw_text() -> Seq<u8> {
    seq![116u8, 101u8, 120u8, 116u8]
}

pub fn kw_text() -> (a: [u8; 4])
    ensures
        a@ == spec_kw_text(),
{
    let a: [u8; 4] = [116, 101, 120, 116];
    assert(a@ =~= spec_kw_text());
    a
}

/// The bytes of `color`.
pub open spec fn spec_kw_color() -> Seq<u8> {
    seq![99u8, 111u8, 108u8, 111u8, 114u8]
}

pub fn kw_color() -> (a: [u8; 5])
    ensures
        a@ == spec_kw_color(),
{
    let a: [u8; 5] = [99, 111, 108, 111, 114];
    assert(a@ =~= spec_kw_color());
    a
}

/// The bytes of `code`.
pub open spec fn spec_kw_code() -> Seq<u8> {
    seq![99u8, 111u8, 100u8, 101u8]
}

pub fn kw_code() -> (a: [u8; 4])
    ensures
        a@ == spec_kw_code(),
{
    let a: [u8; 4] = [99, 111, 100, 101];
    assert(a@ =~= spec_kw_code());
    a
}

/// The bytes of `lat`.
pub open spec fn spec_kw_lat() -> Seq<u8> {
    seq![108u8, 97u8, 116u8]
}

pub fn kw_lat() -> (a: [u8; 3])
    ensures
        a@ == spec_kw_lat(),
{
    let a: [u8; 3] = [108, 97, 116];
    assert(a@ =~= spec_kw_lat());
    a
}

/// The bytes of `long`.
pub open spec fn spec_kw_long() -> Seq<u8> {
    seq![108u8, 111u8, 110u8, 103u8]
}

pub fn kw_long() -> (a: [u8; 4])
    ensures
        a@ == spec_kw_long(),
{
    let a: [u8; 4] = [108, 111, 110, 103];
    assert(a@ =~= spec_kw_long());
    a
}

/// The bytes of `street`.
pub open spec fn spec_kw_street() -> Seq<u8> {
    seq![115u8, 116u8, 114u8, 101u8, 101u8, 116u8]
}

pub fn kw_street() -> (a: [u8; 6])
    ensures
        a@ == spec_kw_street(),
{
    let a: [u8; 6] = [115, 116, 114, 101, 101, 116];
    assert(a@ =~= spec_kw_street());
    a
}

/// The bytes of `locality`.
pub open spec fn spec_kw_locality() -> Seq<u8> {
    seq![108u8, 111u8, 99u8, 97u8, 108u8, 105u8, 116u8, 121u8]
}

pub fn kw_locality() -> (a: [u8; 8])
    ensures
        a@ == spec_kw_locality(),
{
    let a: [u8; 8] = [108, 111, 99, 97, 108, 105, 116, 121];
    assert(a@ =~= spec_kw_locality());
    a
}

/// The bytes of `city`.
pub open spec fn spec_kw_city() -> Seq<u8> {
    seq![99u8, 105u8, 116u8, 121u8]
}

pub fn kw_city() -> (a: [u8; 4])
    ensures
        a@ == spec_kw_city(),
{
    let a: [u8; 4] = [99, 105, 116, 121];
    assert(a@ =~= spec_kw_city());
    a
}

/// The bytes of `county`.
pub open spec fn spec_kw_county() -> Seq<u8> {
    seq![99u8, 111u8, 117u8, 110u8, 116u8, 121u8]
}

pub fn kw_county() -> (a: [u8; 6])
    ensures
        a@ == spec_kw_county(),
{
    let a: [u8; 6] = [99, 111, 117, 110, 116, 121];
    assert(a@ =~= spec_kw_county());
    a
}

/// The bytes of `state`.
pub open spec fn spec_kw_state() -> Seq<u8> {
    seq![115u8, 116u8, 97u8, 116u8, 101u8]
}

pub fn kw_state() -> (a: [u8; 5])
    ensures
        a@ == spec_kw_state(),
{
    let a: [u8; 5] = [115, 116, 97, 116, 101];
    assert(a@ =~= spec_kw_state());
    a
}

/// The bytes of `country`.
pub open spec fn spec_kw_country() -> Seq<u8> {
    seq![99u8, 111u8, 117u8, 110u8, 116u8, 114u8, 121u8]
}

pub fn kw_country() -> (a: [u8; 7])
    ensures
        a@ == spec_kw_country(),
{
    let a: [u8; 7] = [99, 111, 117, 110, 116, 114, 121];
    assert(a@ =~= spec_kw_country());
    a
}

/// The bytes of `postal`.
pub open spec fn spec_kw_postal() -> Seq<u8> {
    seq![112u8, 111u8, 115u8, 116u8, 97u8, 108u8]
}

pub fn kw_postal() -> (a: [u8; 6])
    ensures
        a@ == spec_kw_postal(),
{
    let a: [u8; 6] = [112, 111, 115, 116, 97, 108];
    assert(a@ =~= spec_kw_postal());
    a
}

/// The bytes of `phone`.
pub open spec fn spec_kw_phone() -> Seq<u8> {
    seq![112u8, 104u8, 111u8, 110u8, 101u8]
}

pub fn kw_phone() -> (a: [u8; 5])
    ensures
        a@ == spec_kw_phone(),
{
    let a: [u8; 5] = [112, 104, 111, 110, 101];
    assert(a@ =~= spec_kw_phone());
    a
}

/// The bytes of `rname`.
pub open spec fn spec_kw_rname() -> Seq<u8> {
    seq![114u8, 110u8, 97u8, 109u8, 101u8]
}

pub fn kw_rname() -> (a: [u8; 5])
    ensures
        a@ == spec_kw_rname(),
{
    let a: [u8; 5] = [114, 110, 97, 109, 101];
    assert(a@ =~= spec_kw_rname());
    a
}

/// The bytes of `id`.
pub open spec fn spec_kw_id() -> Seq<u8> {
    seq![105u8, 100u8]
}

pub fn kw_id() -> (a: [u8; 2])
    ensures
        a@ == spec_kw_id(),
{
    let a: [u8; 2] = [105, 100];
    assert(a@ =~= spec_kw_id());
    a
}

/// The bytes of `database`.
pub open spec fn spec_kw_database() -> Seq<u8> {
    seq![100u8, 97u8, 116u8, 97u8, 98u8, 97u8, 115u8, 101u8]
}

pub fn kw_database() -> (a: [u8; 8])
    ensures
        a@ == spec_kw_database(),
{
    let a: [u8; 8] = [100, 97, 116, 97, 98, 97, 115, 101];
    assert(a@ =~= spec_kw_database());
    a
}

/// The bytes of `xmlns`.
pub open spec fn spec_kw_xmlns() -> Seq<u8> {
    seq![120u8, 109u8, 108u8, 110u8, 115u8]
}

pub fn kw_xmlns() -> (a: [u8; 5])
    ensures
        a@ == spec_kw_xmlns(),
{
    let a: [u8; 5] = [120, 109, 108, 110, 115];
    assert(a@ =~= spec_kw_xmlns());
    a
}

/// The bytes of `attribute`.
pub open spec fn spec_kw_attribute() -> Seq<u8> {
    seq![97u8, 116u8, 116u8, 114u8, 105u8, 98u8, 117u8, 116u8, 101u8]
}

pub fn kw_attribute() -> (a: [u8; 9])
    ensures
        a@ == spec_kw_attribute(),
{
    let a: [u8; 9] = [97, 116, 116, 114, 105, 98, 117, 116, 101];
    assert(a@ =~= spec_kw_attribute());
    a
}

/// The bytes of `value`.
pub open spec fn spec_kw_value() -> Seq<u8> {
    seq![118u8, 97u8, 108u8, 117u8, 101u8]
}

pub fn kw_value() -> (a: [u8; 5])
    ensures
        a@ == spec_kw_value(),
{
    let a: [u8; 5] = [118, 97, 108, 117, 101];
    assert(a@ =~= spec_kw_value());
    a
}

/// The bytes of `lds_ord`.
pub open spec fn spec_kw_lds_ord() -> Seq<u8> {
    seq![108u8, 100u8, 115u8, 95u8, 111u8, 114u8, 100u8]
}

pub fn kw_lds_ord() -> (a: [u8; 7])
    ensures
        a@ == spec_kw_lds_ord(),
{
    let a: [u8; 7] = [108, 100, 115, 95, 111, 114, 100];
    assert(a@ =~= spec_kw_lds_ord());
    a
}

/// The bytes of `address`.
pub open spec fn spec_kw_address() -> Seq<u8> {
    seq![97u8, 100u8, 100u8, 114u8, 101u8, 115u8, 115u8]
}

pub fn kw_address() -> (a: [u8; 7])
    ensures
        a@ == spec_kw_address(),
{
    let a: [u8; 7] = [97, 100, 100, 114, 101, 115, 115];
    assert(a@ =~= spec_kw_address());
    a
}

/// The bytes of `location`.
pub open spec fn spec_kw_location() -> Seq<u8> {
    seq![108u8, 111u8, 99u8, 97u8, 116u8, 105u8, 111u8, 110u8]
}

pub fn kw_location() -> (a: [u8; 8])
    ensures
        a@ == spec_kw_location(),
{
    let a: [u8; 8] = [108, 111, 99, 97, 116, 105, 111, 110];
    assert(a@ =~= spec_kw_location());
    a
}

/// The bytes of `url`.
pub open spec fn spec_kw_url() -> Seq<u8> {
    seq![117u8, 114u8, 108u8]
}

pub fn kw_url() -> (a: [u8; 3])
    ensures
        a@ == spec_kw_url(),
{
    let a: [u8; 3] = [117, 114, 108];
    assert(a@ =~= spec_kw_url());
    a
}

/// The bytes of `prefix`.
pub open spec fn spec_kw_prefix() -> Seq<u8> {
    seq![112u8, 114u8, 101u8, 102u8, 105u8, 120u8]
}

pub fn kw_prefix() -> (a: [u8; 6])
    ensures
        a@ == spec_kw_prefix(),
{
    let a: [u8; 6] = [112, 114, 101, 102, 105, 120];
    assert(a@ =~= spec_kw_prefix());
    a
}

/// The bytes of `prim`.
pub open spec fn spec_kw_prim() -> Seq<u8> {
    seq![112u8, 114u8, 105u8, 109u8]
}

pub fn kw_prim() -> (a: [u8; 4])
    ensures
        a@ == spec_kw_prim(),
{
    let a: [u8; 4] = [112, 114, 105, 109];
    assert(a@ =~= spec_kw_prim());
    a
}

/// The bytes of `origintype`.
pub open spec fn spec_kw_origintype() -> Seq<u8> {
    seq![111u8, 114u8, 105u8, 103u8, 105u8, 110u8, 116u8, 121u8, 112u8, 101u8]
}

pub fn kw_origintype() -> (a: [u8; 10])
    ensures
        a@ == spec_kw_origintype(),
{
    let a: [u8; 10] = [111, 114, 105, 103, 105, 110, 116, 121, 112, 101];
    assert(a@ =~= spec_kw_origintype());
    a
}

/// The bytes of `role`.
pub open spec fn spec_kw_role() -> Seq<u8> {
    seq![114u8, 111u8, 108u8, 101u8]
}

pub fn kw_role() -> (a: [u8; 4])
    ensures
        a@ == spec_kw_role(),
{
    let a: [u8; 4] = [114, 111, 108, 101];
    assert(a@ =~= spec_kw_role());
    a
}

/// The bytes of `relation`.
pub open spec fn spec_kw_relation() -> Seq<u8> {
    seq![114u8, 101u8, 108u8, 97u8, 116u8, 105u8, 111u8, 110u8]
}

pub fn kw_relation() -> (a: [u8; 8])
    ensures
        a@ == spec_kw_relation(),
{
    let a: [u8; 8] = [114, 101, 108, 97, 116, 105, 111, 110];
    assert(a@ =~= spec_kw_relation());
    a
}

/// The bytes of `status`.
pub open spec fn spec_kw_status() -> Seq<u8> {
    seq![115u8, 116u8, 97u8, 116u8, 117u8, 115u8]
}

pub fn kw_status() -> (a: [u8; 6])
    ensures
        a@ == spec_kw_status(),
{
    let a: [u8; 6] = [115, 116, 97, 116, 117, 115];
    assert(a@ =~= spec_kw_status());
    a
}

/// The bytes of `temple`.
pub open spec fn spec_kw_temple() -> Seq<u8> {
    seq![116u8, 101u8, 109u8, 112u8, 108u8, 101u8]
}

pub fn kw_temple() -> (a: [u8; 6])
    ensures
        a@ == spec_kw_temple(),
{
    let a: [u8; 6] = [116, 101, 109, 112, 108, 101];
    assert(a@ =~= spec_kw_temple());
    a
}

/// The bytes of `plac`.
pub open spec fn spec_kw_plac() -> Seq<u8> {
    seq![112u8, 108u8, 97u8, 99u8]
}

pub fn kw_plac() -> (a: [u8; 4])
    ensures
        a@ == spec_kw_plac(),
{
    let a: [u8; 4] = [112, 108, 97, 99];
    assert(a@ =~= spec_kw_plac());
    a
}

/// The bytes of `href`.
pub open spec fn spec_kw_href() -> Seq<u8> {
    seq![104u8, 114u8, 101u8, 102u8]
}

pub fn kw_href() -> (a: [u8; 4])
    ensures
        a@ == spec_kw_href(),
{
    let a: [u8; 4] = [104, 114, 101, 102];
    assert(a@ =~= spec_kw_href());
    a
}

/// The bytes of `callnumber`.
pub open spec fn spec_kw_callnumber() -> Seq<u8> {
    seq![99u8, 97u8, 108u8, 108u8, 110u8, 117u8, 109u8, 98u8, 101u8, 114u8]
}

pub fn kw_callnumber() -> (a: [u8; 10])
    ensures
        a@ == spec_kw_callnumber(),
{
    let a: [u8; 10] = [99, 97, 108, 108, 110, 117, 109, 98, 101, 114];
    assert(a@ =~= spec_kw_callnumber());
    a
}

/// The bytes of `mediatype`.
pub open spec fn spec_kw_mediatype() -> Seq<u8> {
    seq![109u8, 101u8, 100u8, 105u8, 97u8, 116u8, 121u8, 112u8, 101u8]
}

pub fn kw_mediatype() -> (a: [u8; 9])
    ensures
        a@ == spec_kw_mediatype(),
{
    let a: [u8; 9] = [109, 101, 100, 105, 97, 116, 121, 112, 101];
    assert(a@ =~= spec_kw_mediatype());
    a
}

/// The bytes of `confidence`.
pub open spec fn spec_kw_confidence() -> Seq<u8> {
    seq![99u8, 111u8, 110u8, 102u8, 105u8, 100u8, 101u8, 110u8, 99u8, 101u8]
}

pub fn kw_confidence() -> (a: [u8; 10])
    ensures
        a@ == spec_kw_confidence(),
{
    let a: [u8; 10] = [99, 111, 110, 102, 105, 100, 101, 110, 99, 101];
    assert(a@ =~= spec_kw_confidence());
    a
}

/// The bytes of `format`.
pub open spec fn spec_kw_format() -> Seq<u8> {
    seq![102u8, 111u8, 114u8, 109u8, 97u8, 116u8]
}

pub fn kw_format() -> (a: [u8; 6])
    ensures
        a@ == spec_kw_format(),
{
    let a: [u8; 6] = [102, 111, 114, 109, 97, 116];
    assert(a@ =~= spec_kw_format());
    a
}

/// The bytes of `priority`.
pub open spec fn spec_kw_priority() -> Seq<u8> {
    seq![112u8, 114u8, 105u8, 111u8, 114u8, 105u8, 116u8, 121u8]
}

pub fn kw_priority() -> (a: [u8; 8])
    ensures
        a@ == spec_kw_priority(),
{
    let a: [u8; 8] = [112, 114, 105, 111, 114, 105, 116, 121];
    assert(a@ =~= spec_kw_priority());
    a
}

/// The bytes of `file`.
pub open spec fn spec_kw_file() -> Seq<u8> {
    seq![102u8, 105u8, 108u8, 101u8]
}

pub fn kw_file() -> (a: [u8; 4])
    ensures
        a@ == spec_kw_file(),
{
    let a: [u8; 4] = [102, 105, 108, 101];
    assert(a@ =~= spec_kw_file());
    a
}

/// The bytes of `src`.
pub open spec fn spec_kw_src() -> Seq<u8> {
    seq![115u8, 114u8, 99u8]
}

pub fn kw_src() -> (a: [u8; 3])
    ensures
        a@ == spec_kw_src(),
{
    let a: [u8; 3] = [115, 114, 99];
    assert(a@ =~= spec_kw_src());
    a
}

} // verus!
