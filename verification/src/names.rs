//! XML element and attribute names of the Gramps format, as bytes.

use vstd::prelude::*;

verus! {

/// The bytes of `event`.
pub open spec fn spec_kw_event() -> Seq<u8> {
    seq![101u8, 118u8, 101u8, 110u8, 116u8]
}

pub fn kw_event() -> (a: [u8; 5])
    ensures
        a@ == spec_kw_event(),
{
    let a: [u8; 5] = [101, 118, 101, 110, 116];
    assert(a@ =~= spec_kw_event());
    a
}

/// The bytes of `eventtype`.
pub open spec fn spec_kw_eventtype() -> Seq<u8> {
    seq![101u8, 118u8, 101u8, 110u8, 116u8, 116u8, 121u8, 112u8, 101u8]
}

pub fn kw_eventtype() -> (a: [u8; 9])
    ensures
        a@ == spec_kw_eventtype(),
{
    let a: [u8; 9] = [101, 118, 101, 110, 116, 116, 121, 112, 101];
    assert(a@ =~= spec_kw_eventtype());
    a
}

/// The bytes of `type`.
pub open spec fn spec_kw_type() -> Seq<u8> {
    seq![116u8, 121u8, 112u8, 101u8]
}

pub fn kw_type() -> (a: [u8; 4])
    ensures
        a@ == spec_kw_type(),
{
    let a: [u8; 4] = [116, 121, 112, 101];
    assert(a@ =~= spec_kw_type());
    a
}

/// The bytes of `dateval`.
pub open spec fn spec_kw_dateval() -> Seq<u8> {
    seq![100u8, 97u8, 116u8, 101u8, 118u8, 97u8, 108u8]
}

pub fn kw_dateval() -> (a: [u8; 7])
    ensures
        a@ == spec_kw_dateval(),
{
    let a: [u8; 7] = [100, 97, 116, 101, 118, 97, 108];
    assert(a@ =~= spec_kw_dateval());
    a
}

/// The bytes of `person`.
pub open spec fn spec_kw_person() -> Seq<u8> {
    seq![112u8, 101u8, 114u8, 115u8, 111u8, 110u8]
}

pub fn kw_person() -> (a: [u8; 6])
    ensures
        a@ == spec_kw_person(),
{
    let a: [u8; 6] = [112, 101, 114, 115, 111, 110];
    assert(a@ =~= spec_kw_person());
    a
}

/// The bytes of `birth`.
pub open spec fn spec_kw_birth() -> Seq<u8> {
    seq![98u8, 105u8, 114u8, 116u8, 104u8]
}

pub fn kw_birth() -> (a: [u8; 5])
    ensures
        a@ == spec_kw_birth(),
{
    let a: [u8; 5] = [98, 105, 114, 116, 104];
    assert(a@ =~= spec_kw_birth());
    a
}

/// The bytes of `death`.
pub open spec fn spec_kw_death() -> Seq<u8> {
    seq![100u8, 101u8, 97u8, 116u8, 104u8]
}

pub fn kw_death() -> (a: [u8; 5])
    ensures
        a@ == spec_kw_death(),
{
    let a: [u8; 5] = [100, 101, 97, 116, 104];
    assert(a@ =~= spec_kw_death());
    a
}

/// The bytes of `name`.
pub open spec fn spec_kw_name() -> Seq<u8> {
    seq![110u8, 97u8, 109u8, 101u8]
}

pub fn kw_name() -> (a: [u8; 4])
    ensures
        a@ == spec_kw_name(),
{
    let a: [u8; 4] = [110, 97, 109, 101];
    assert(a@ =~= spec_kw_name());
    a
}

/// The bytes of `first`.
pub open spec fn spec_kw_first() -> Seq<u8> {
    seq![102u8, 105u8, 114u8, 115u8, 116u8]
}

pub fn kw_first() -> (a: [u8; 5])
    ensures
        a@ == spec_kw_first(),
{
    let a: [u8; 5] = [102, 105, 114, 115, 116];
    assert(a@ =~= spec_kw_first());
    a
}

/// The bytes of `surname`.
pub open spec fn spec_kw_surname() -> Seq<u8> {
    seq![115u8, 117u8, 114u8, 110u8, 97u8, 109u8, 101u8]
}

pub fn kw_surname() -> (a: [u8; 7])
    ensures
        a@ == spec_kw_surname(),
{
    let a: [u8; 7] = [115, 117, 114, 110, 97, 109, 101];
    assert(a@ =~= spec_kw_surname());
    a
}

/// The bytes of `gender`.
pub open spec fn spec_kw_gender() -> Seq<u8> {
    seq![103u8, 101u8, 110u8, 100u8, 101u8, 114u8]
}

pub fn kw_gender() -> (a: [u8; 6])
    ensures
        a@ == spec_kw_gender(),
{
    let a: [u8; 6] = [103, 101, 110, 100, 101, 114];
    assert(a@ =~= spec_kw_gender());
    a
}

/// The bytes of `family`.
pub open spec fn spec_kw_family() -> Seq<u8> {
    seq![102u8, 97u8, 109u8, 105u8, 108u8, 121u8]
}

pub fn kw_family() -> (a: [u8; 6])
    ensures
        a@ == spec_kw_family(),
{
    let a: [u8; 6] = [102, 97, 109, 105, 108, 121];
    assert(a@ =~= spec_kw_family());
    a
}

/// The bytes of `father`.
pub open spec fn spec_kw_father() -> Seq<u8> {
    seq![102u8, 97u8, 116u8, 104u8, 101u8, 114u8]
}

pub fn kw_father() -> (a: [u8; 6])
    ensures
        a@ == spec_kw_father(),
{
    let a: [u8; 6] = [102, 97, 116, 104, 101, 114];
    assert(a@ =~= spec_kw_father());
    a
}

/// The bytes of `mother`.
pub open spec fn spec_kw_mother() -> Seq<u8> {
    seq![109u8, 111u8, 116u8, 104u8, 101u8, 114u8]
}

pub fn kw_mother() -> (a: [u8; 6])
    ensures
        a@ == spec_kw_mother(),
{
    let a: [u8; 6] = [109, 111, 116, 104, 101, 114];
    assert(a@ =~= spec_kw_mother());
    a
}

/// The bytes of `childref`.
pub open spec fn spec_kw_childref() -> Seq<u8> {
    seq![99u8, 104u8, 105u8, 108u8, 100u8, 114u8, 101u8, 102u8]
}

pub fn kw_childref() -> (a: [u8; 8])
    ensures
        a@ == spec_kw_childref(),
{
    let a: [u8; 8] = [99, 104, 105, 108, 100, 114, 101, 102];
    assert(a@ =~= spec_kw_childref());
    a
}

/// The bytes of `handle`.
pub open spec fn spec_kw_handle() -> Seq<u8> {
    seq![104u8, 97u8, 110u8, 100u8, 108u8, 101u8]
}

pub fn kw_handle() -> (a: [u8; 6])
    ensures
        a@ == spec_kw_handle(),
{
    let a: [u8; 6] = [104, 97, 110, 100, 108, 101];
    assert(a@ =~= spec_kw_handle());
    a
}

/// The bytes of `hlink`.
pub open spec fn spec_kw_hlink() -> Seq<u8> {
    seq![104u8, 108u8, 105u8, 110u8, 107u8]
}

pub fn kw_hlink() -> (a: [u8; 5])
    ensures
        a@ == spec_kw_hlink(),
{
    let a: [u8; 5] = [104, 108, 105, 110, 107];
    assert(a@ =~= spec_kw_hlink());
    a
}

/// The bytes of `val`.
pub open spec fn spec_kw_val() -> Seq<u8> {
    seq![118u8, 97u8, 108u8]
}

pub fn kw_val() -> (a: [u8; 3])
    ensures
        a@ == spec_kw_val(),
{
    let a: [u8; 3] = [118, 97, 108];
    assert(a@ =~= spec_kw_val());
    a
}

/// The bytes of `header`.
pub open spec fn spec_kw_header() -> Seq<u8> {
    seq![104u8, 101u8, 97u8, 100u8, 101u8, 114u8]
}

pub fn kw_header() -> (a: [u8; 6])
    ensures
        a@ == spec_kw_header(),
{
    let a: [u8; 6] = [104, 101, 97, 100, 101, 114];
    assert(a@ =~= spec_kw_header());
    a
}

/// The bytes of `created`.
pub open spec fn spec_kw_created() -> Seq<u8> {
    seq![99u8, 114u8, 101u8, 97u8, 116u8, 101u8, 100u8]
}

pub fn kw_created() -> (a: [u8; 7])
    ensures
        a@ == spec_kw_created(),
{
    let a: [u8; 7] = [99, 114, 101, 97, 116, 101, 100];
    assert(a@ =~= spec_kw_created());
    a
}

/// The bytes of `version`.
pub open spec fn spec_kw_version() -> Seq<u8> {
    seq![118u8, 101u8, 114u8, 115u8, 105u8, 111u8, 110u8]
}

pub fn kw_version() -> (a: [u8; 7])
    ensures
        a@ == spec_kw_version(),
{
    let a: [u8; 7] = [118, 101, 114, 115, 105, 111, 110];
    assert(a@ =~= spec_kw_version());
    a
}


/// The bytes of `eventref`.
pub open spec fn spec_kw_eventref() -> Seq<u8> {
    seq![101u8, 118u8, 101u8, 110u8, 116u8, 114u8, 101u8, 102u8]
}

pub fn kw_eventref() -> (a: [u8; 8])
    ensures
        a@ == spec_kw_eventref(),
{
    let a: [u8; 8] = [101, 118, 101, 110, 116, 114, 101, 102];
    assert(a@ =~= spec_kw_eventref());
    a
}


/// The bytes of `quality`.
pub open spec fn spec_kw_quality() -> Seq<u8> {
    seq![113u8, 117u8, 97u8, 108u8, 105u8, 116u8, 121u8]
}

pub fn kw_quality() -> (a: [u8; 7])
    ensures
        a@ == spec_kw_quality(),
{
    let a: [u8; 7] = [113, 117, 97, 108, 105, 116, 121];
    assert(a@ =~= spec_kw_quality());
    a
}

} // verus!
