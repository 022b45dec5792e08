//! How the fields of each configuration register share its eleven payload bits.
//!
//! A field owns a fixed run of bits. Composing a payload places every code at
//! its field's offset; a code wider than its field loses the bits that do not
//! fit, so no field can ever spill into a sibling.

use vstd::prelude::*;

verus! {

/// A code placed in a field: the code, cut to the `codes` values that the
/// field can hold, weighs `weight` (two to the power of the field's offset).
pub open spec fn placed(code: u16, weight: int, codes: int) -> int {
    weight * ((code as int) % codes)
}

/// What a field of a payload holds: the run of bits that starts at the bit
/// weighing `weight` and can hold `codes` values.
pub open spec fn held(payload: u16, weight: int, codes: int) -> int {
    ((payload as int) / weight) % codes
}

/// Payload of the drive control register.
pub open spec fn spec_dcr_payload(
    dis_cpuv: u16,
    dis_gdf: u16,
    otw_rep: u16,
    pwm_mode: u16,
    pwm_com: u16,
    pwm_dir: u16,
    coast: u16,
    brake: u16,
    clr_flt: u16,
) -> int {
    placed(dis_cpuv, 512, 2) + placed(dis_gdf, 256, 2) + placed(otw_rep, 128, 2) + placed(
        pwm_mode,
        32,
        4,
    ) + placed(pwm_com, 16, 2) + placed(pwm_dir, 8, 2) + placed(coast, 4, 2) + placed(brake, 2, 2)
        + placed(clr_flt, 1, 2)
}

/// Payload of the high-side gate drive register.
pub open spec fn spec_hsr_payload(lock: u16, idrivep_hs: u16, idriven_hs: u16) -> int {
    placed(lock, 256, 8) + placed(idrivep_hs, 16, 16) + placed(idriven_hs, 1, 16)
}

/// Payload of the low-side gate drive register.
pub open spec fn spec_lsr_payload(cbc: u16, tdrive: u16, idrivep_ls: u16, idriven_ls: u16) -> int {
    placed(cbc, 1024, 2) + placed(tdrive, 256, 4) + placed(idrivep_ls, 16, 16) + placed(
        idriven_ls,
        1,
        16,
    )
}

/// Payload of the overcurrent protection control register.
pub open spec fn spec_ocpcr_payload(
    tretry: u16,
    dead_time: u16,
    ocp_mode: u16,
    ocp_deg: u16,
    vds_lvl: u16,
) -> int {
    placed(tretry, 1024, 2) + placed(dead_time, 256, 4) + placed(ocp_mode, 64, 4) + placed(
        ocp_deg,
        16,
        4,
    ) + placed(vds_lvl, 1, 16)
}

/// Payload of the current-sense amplifier control register.
pub open spec fn spec_csacr_payload(
    csa_fet: u16,
    vref_div: u16,
    ls_ref: u16,
    csa_gain: u16,
    dis_sen: u16,
    csa_cal_a: u16,
    csa_cal_b: u16,
    csa_cal_c: u16,
    sen_lvl: u16,
) -> int {
    placed(csa_fet, 1024, 2) + placed(vref_div, 512, 2) + placed(ls_ref, 256, 2) + placed(
        csa_gain,
        64,
        4,
    ) + placed(dis_sen, 32, 2) + placed(csa_cal_a, 16, 2) + placed(csa_cal_b, 8, 2) + placed(
        csa_cal_c,
        4,
        2,
    ) + placed(sen_lvl, 1, 4)
}

/// A payload with its coast field (bit 2 of the drive control register) set
/// or cleared and every other bit as it was.
pub open spec fn spec_with_coast(payload: u16, coast: bool) -> int {
    payload - 4 * held(payload, 4, 2) + if coast {
        4int
    } else {
        0int
    }
}

/// Composes the payload of the drive control register.
pub fn dcr_payload(
    dis_cpuv: u16,
    dis_gdf: u16,
    otw_rep: u16,
    pwm_mode: u16,
    pwm_com: u16,
    pwm_dir: u16,
    coast: u16,
    brake: u16,
    clr_flt: u16,
) -> (payload: u16)
    ensures
        payload == spec_dcr_payload(
            dis_cpuv,
            dis_gdf,
            otw_rep,
            pwm_mode,
            pwm_com,
            pwm_dir,
            coast,
            brake,
            clr_flt,
        ),
        payload <= 0x3FF,
{
    assert((((dis_cpuv & 1) << 9) | ((dis_gdf & 1) << 8) | ((otw_rep & 1) << 7) | ((pwm_mode & 3)
        << 5) | ((pwm_com & 1) << 4) | ((pwm_dir & 1) << 3) | ((coast & 1) << 2) | ((brake & 1)
        << 1) | (clr_flt & 1)) == 512 * (dis_cpuv % 2) + 256 * (dis_gdf % 2) + 128 * (otw_rep % 2)
        + 32 * (pwm_mode % 4) + 16 * (pwm_com % 2) + 8 * (pwm_dir % 2) + 4 * (coast % 2) + 2 * (
    brake % 2) + clr_flt % 2) by (bit_vector);
    ((dis_cpuv & 1) << 9) | ((dis_gdf & 1) << 8) | ((otw_rep & 1) << 7) | ((pwm_mode & 3) << 5) | ((
    pwm_com & 1) << 4) | ((pwm_dir & 1) << 3) | ((coast & 1) << 2) | ((brake & 1) << 1) | (clr_flt
        & 1)
}

/// Composes the payload of the high-side gate drive register.
pub fn hsr_payload(lock: u16, idrivep_hs: u16, idriven_hs: u16) -> (payload: u16)
    ensures
        payload == spec_hsr_payload(lock, idrivep_hs, idriven_hs),
        payload <= 0x7FF,
{
    assert((((lock & 7) << 8) | ((idrivep_hs & 15) << 4) | (idriven_hs & 15)) == 256 * (lock % 8)
        + 16 * (idrivep_hs % 16) + idriven_hs % 16) by (bit_vector);
    ((lock & 7) << 8) | ((idrivep_hs & 15) << 4) | (idriven_hs & 15)
}

/// Composes the payload of the low-side gate drive register.
pub fn lsr_payload(cbc: u16, tdrive: u16, idrivep_ls: u16, idriven_ls: u16) -> (payload: u16)
    ensures
        payload == spec_lsr_payload(cbc, tdrive, idrivep_ls, idriven_ls),
        payload <= 0x7FF,
{
    assert((((cbc & 1) << 10) | ((tdrive & 3) << 8) | ((idrivep_ls & 15) << 4) | (idriven_ls & 15))
        == 1024 * (cbc % 2) + 256 * (tdrive % 4) + 16 * (idrivep_ls % 16) + idriven_ls % 16)
        by (bit_vector);
    ((cbc & 1) << 10) | ((tdrive & 3) << 8) | ((idrivep_ls & 15) << 4) | (idriven_ls & 15)
}

/// Composes the payload of the overcurrent protection control register.
pub fn ocpcr_payload(tretry: u16, dead_time: u16, ocp_mode: u16, ocp_deg: u16, vds_lvl: u16) -> (payload:
    u16)
    ensures
        payload == spec_ocpcr_payload(tretry, dead_time, ocp_mode, ocp_deg, vds_lvl),
        payload <= 0x7FF,
{
    assert((((tretry & 1) << 10) | ((dead_time & 3) << 8) | ((ocp_mode & 3) << 6) | ((ocp_deg & 3)
        << 4) | (vds_lvl & 15)) == 1024 * (tretry % 2) + 256 * (dead_time % 4) + 64 * (ocp_mode
        % 4) + 16 * (ocp_deg % 4) + vds_lvl % 16) by (bit_vector);
    ((tretry & 1) << 10) | ((dead_time & 3) << 8) | ((ocp_mode & 3) << 6) | ((ocp_deg & 3) << 4) | (
    vds_lvl & 15)
}

/// Composes the payload of the current-sense amplifier control register.
pub fn csacr_payload(
    csa_fet: u16,
    vref_div: u16,
    ls_ref: u16,
    csa_gain: u16,
    dis_sen: u16,
    csa_cal_a: u16,
    csa_cal_b: u16,
    csa_cal_c: u16,
    sen_lvl: u16,
) -> (payload: u16)
    ensures
        payload == spec_csacr_payload(
            csa_fet,
            vref_div,
            ls_ref,
            csa_gain,
            dis_sen,
            csa_cal_a,
            csa_cal_b,
            csa_cal_c,
            sen_lvl,
        ),
        payload <= 0x7FF,
{
    assert((((csa_fet & 1) << 10) | ((vref_div & 1) << 9) | ((ls_ref & 1) << 8) | ((csa_gain & 3)
        << 6) | ((dis_sen & 1) << 5) | ((csa_cal_a & 1) << 4) | ((csa_cal_b & 1) << 3) | ((
    csa_cal_c & 1) << 2) | (sen_lvl & 3)) == 1024 * (csa_fet % 2) + 512 * (vref_div % 2) + 256 * (
    ls_ref % 2) + 64 * (csa_gain % 4) + 32 * (dis_sen % 2) + 16 * (csa_cal_a % 2) + 8 * (csa_cal_b
        % 2) + 4 * (csa_cal_c % 2) + sen_lvl % 4) by (bit_vector);
    ((csa_fet & 1) << 10) | ((vref_div & 1) << 9) | ((ls_ref & 1) << 8) | ((csa_gain & 3) << 6) | ((
    dis_sen & 1) << 5) | ((csa_cal_a & 1) << 4) | ((csa_cal_b & 1) << 3) | ((csa_cal_c & 1) << 2)
        | (sen_lvl & 3)
}

/// Sets or clears the coast field of a drive control payload and leaves the
/// other fields alone.
pub fn with_coast(payload: u16, coast: bool) -> (updated: u16)
    ensures
        updated == spec_with_coast(payload, coast),
        held(updated, 4, 2) == if coast { 1int } else { 0int },
        updated % 4 == payload % 4,
        updated / 8 == payload / 8,
{
    if coast {
        assert((payload | 4) == payload - 4 * ((payload / 4) % 2) + 4) by (bit_vector);
        assert(((payload | 4) / 4) % 2 == 1) by (bit_vector);
        assert((payload | 4) % 4 == payload % 4) by (bit_vector);
        assert((payload | 4) / 8 == payload / 8) by (bit_vector);
        payload | 4
    } else {
        assert((payload & !4u16) == payload - 4 * ((payload / 4) % 2)) by (bit_vector);
        assert(((payload & !4u16) / 4) % 2 == 0) by (bit_vector);
        assert((payload & !4u16) % 4 == payload % 4) by (bit_vector);
        assert((payload & !4u16) / 8 == payload / 8) by (bit_vector);
        payload & !4u16
    }
}

/// The codes of the drive control register combined bit by bit, each shifted
/// to the offset of its field.
pub open spec fn dcr_word(
    dis_cpuv: u16,
    dis_gdf: u16,
    otw_rep: u16,
    pwm_mode: u16,
    pwm_com: u16,
    pwm_dir: u16,
    coast: u16,
    brake: u16,
    clr_flt: u16,
) -> u16 {
    (dis_cpuv << 9) | (dis_gdf << 8) | (otw_rep << 7) | (pwm_mode << 5) | (pwm_com << 4) |
    (pwm_dir << 3) | (coast << 2) | (brake << 1) | clr_flt
}

/// Fields of the drive control register: with every code inside its field, the
/// payload is the bitwise combination of the codes, each shifted to the
/// offset of its field; no two fields share a bit, so each field holds
/// exactly the code that was given for it.
pub proof fn lemma_dcr_fields(
    dis_cpuv: u16,
    dis_gdf: u16,
    otw_rep: u16,
    pwm_mode: u16,
    pwm_com: u16,
    pwm_dir: u16,
    coast: u16,
    brake: u16,
    clr_flt: u16,
)
    requires
        dis_cpuv < 2,
        dis_gdf < 2,
        otw_rep < 2,
        pwm_mode < 4,
        pwm_com < 2,
        pwm_dir < 2,
        coast < 2,
        brake < 2,
        clr_flt < 2,
    ensures
        spec_dcr_payload(
            dis_cpuv, dis_gdf, otw_rep, pwm_mode, pwm_com, pwm_dir, coast, brake, clr_flt
        ) == dcr_word(
            dis_cpuv, dis_gdf, otw_rep, pwm_mode, pwm_com, pwm_dir, coast, brake, clr_flt
        ),
        held(dcr_word(
            dis_cpuv, dis_gdf, otw_rep, pwm_mode, pwm_com, pwm_dir, coast, brake, clr_flt
        ), 512, 2) == dis_cpuv,
        held(dcr_word(
            dis_cpuv, dis_gdf, otw_rep, pwm_mode, pwm_com, pwm_dir, coast, brake, clr_flt
        ), 256, 2) == dis_gdf,
        held(dcr_word(
            dis_cpuv, dis_gdf, otw_rep, pwm_mode, pwm_com, pwm_dir, coast, brake, clr_flt
        ), 128, 2) == otw_rep,
        held(dcr_word(
            dis_cpuv, dis_gdf, otw_rep, pwm_mode, pwm_com, pwm_dir, coast, brake, clr_flt
        ), 32, 4) == pwm_mode,
        held(dcr_word(
            dis_cpuv, dis_gdf, otw_rep, pwm_mode, pwm_com, pwm_dir, coast, brake, clr_flt
        ), 16, 2) == pwm_com,
        held(dcr_word(
            dis_cpuv, dis_gdf, otw_rep, pwm_mode, pwm_com, pwm_dir, coast, brake, clr_flt
        ), 8, 2) == pwm_dir,
        held(dcr_word(
            dis_cpuv, dis_gdf, otw_rep, pwm_mode, pwm_com, pwm_dir, coast, brake, clr_flt
        ), 4, 2) == coast,
        held(dcr_word(
            dis_cpuv, dis_gdf, otw_rep, pwm_mode, pwm_com, pwm_dir, coast, brake, clr_flt
        ), 2, 2) == brake,
        held(dcr_word(
            dis_cpuv, dis_gdf, otw_rep, pwm_mode, pwm_com, pwm_dir, coast, brake, clr_flt
        ), 1, 2) == clr_flt,
{
    assert({
        &&& dcr_word(
            dis_cpuv, dis_gdf, otw_rep, pwm_mode, pwm_com, pwm_dir, coast, brake, clr_flt
        ) ==
        512 * dis_cpuv + 256 * dis_gdf + 128 * otw_rep + 32 * pwm_mode + 16 * pwm_com +
        8 * pwm_dir + 4 * coast + 2 * brake + clr_flt
        &&& (dcr_word(
            dis_cpuv, dis_gdf, otw_rep, pwm_mode, pwm_com, pwm_dir, coast, brake, clr_flt
        ) / 512) % 2 == dis_cpuv
        &&& (dcr_word(
            dis_cpuv, dis_gdf, otw_rep, pwm_mode, pwm_com, pwm_dir, coast, brake, clr_flt
        ) / 256) % 2 == dis_gdf
        &&& (dcr_word(
            dis_cpuv, dis_gdf, otw_rep, pwm_mode, pwm_com, pwm_dir, coast, brake, clr_flt
        ) / 128) % 2 == otw_rep
        &&& (dcr_word(
            dis_cpuv, dis_gdf, otw_rep, pwm_mode, pwm_com, pwm_dir, coast, brake, clr_flt
        ) / 32) % 4 == pwm_mode
        &&& (dcr_word(
            dis_cpuv, dis_gdf, otw_rep, pwm_mode, pwm_com, pwm_dir, coast, brake, clr_flt
        ) / 16) % 2 == pwm_com
        &&& (dcr_word(
            dis_cpuv, dis_gdf, otw_rep, pwm_mode, pwm_com, pwm_dir, coast, brake, clr_flt
        ) / 8) % 2 == pwm_dir
        &&& (dcr_word(
            dis_cpuv, dis_gdf, otw_rep, pwm_mode, pwm_com, pwm_dir, coast, brake, clr_flt
        ) / 4) % 2 == coast
        &&& (dcr_word(
            dis_cpuv, dis_gdf, otw_rep, pwm_mode, pwm_com, pwm_dir, coast, brake, clr_flt
        ) / 2) % 2 == brake
        &&& (dcr_word(
            dis_cpuv, dis_gdf, otw_rep, pwm_mode, pwm_com, pwm_dir, coast, brake, clr_flt
        ) / 1) % 2 == clr_flt
    }) by (bit_vector)
        requires
            dis_cpuv < 2,
            dis_gdf < 2,
            otw_rep < 2,
            pwm_mode < 4,
            pwm_com < 2,
            pwm_dir < 2,
            coast < 2,
            brake < 2,
            clr_flt < 2,
    ;
}

/// The codes of the high-side gate drive register combined bit by bit, each shifted
/// to the offset of its field.
pub open spec fn hsr_word(
    lock: u16,
    idrivep_hs: u16,
    idriven_hs: u16,
) -> u16 {
    (lock << 8) | (idrivep_hs << 4) | idriven_hs
}

/// Fields of the high-side gate drive register: with every code inside its field, the
/// payload is the bitwise combination of the codes, each shifted to the
/// offset of its field; no two fields share a bit, so each field holds
/// exactly the code that was given for it.
pub proof fn lemma_hsr_fields(
    lock: u16,
    idrivep_hs: u16,
    idriven_hs: u16,
)
    requires
        lock < 8,
        idrivep_hs < 16,
        idriven_hs < 16,
    ensures
        spec_hsr_payload(
            lock, idrivep_hs, idriven_hs
        ) == hsr_word(
            lock, idrivep_hs, idriven_hs
        ),
        held(hsr_word(
            lock, idrivep_hs, idriven_hs
        ), 256, 8) == lock,
        held(hsr_word(
            lock, idrivep_hs, idriven_hs
        ), 16, 16) == idrivep_hs,
        held(hsr_word(
            lock, idrivep_hs, idriven_hs
        ), 1, 16) == idriven_hs,
{
    assert({
        &&& hsr_word(
            lock, idrivep_hs, idriven_hs
        ) ==
        256 * lock + 16 * idrivep_hs + idriven_hs
        &&& (hsr_word(
            lock, idrivep_hs, idriven_hs
        ) / 256) % 8 == lock
        &&& (hsr_word(
            lock, idrivep_hs, idriven_hs
        ) / 16) % 16 == idrivep_hs
        &&& (hsr_word(
            lock, idrivep_hs, idriven_hs
        ) / 1) % 16 == idriven_hs
    }) by (bit_vector)
        requires
            lock < 8,
            idrivep_hs < 16,
            idriven_hs < 16,
    ;
}

/// The codes of the low-side gate drive register combined bit by bit, each shifted
/// to the offset of its field.
pub open spec fn lsr_word(
    cbc: u16,
    tdrive: u16,
    idrivep_ls: u16,
    idriven_ls: u16,
) -> u16 {
    (cbc << 10) | (tdrive << 8) | (idrivep_ls << 4) | idriven_ls
}

/// Fields of the low-side gate drive register: with every code inside its field, the
/// payload is the bitwise combination of the codes, each shifted to the
/// offset of its field; no two fields share a bit, so each field holds
/// exactly the code that was given for it.
pub proof fn lemma_lsr_fields(
    cbc: u16,
    tdrive: u16,
    idrivep_ls: u16,
    idriven_ls: u16,
)
    requires
        cbc < 2,
        tdrive < 4,
        idrivep_ls < 16,
        idriven_ls < 16,
    ensures
        spec_lsr_payload(
            cbc, tdrive, idrivep_ls, idriven_ls
        ) == lsr_word(
            cbc, tdrive, idrivep_ls, idriven_ls
        ),
        held(lsr_word(
            cbc, tdrive, idrivep_ls, idriven_ls
        ), 1024, 2) == cbc,
        held(lsr_word(
            cbc, tdrive, idrivep_ls, idriven_ls
        ), 256, 4) == tdrive,
        held(lsr_word(
            cbc, tdrive, idrivep_ls, idriven_ls
        ), 16, 16) == idrivep_ls,
        held(lsr_word(
            cbc, tdrive, idrivep_ls, idriven_ls
        ), 1, 16) == idriven_ls,
{
    assert({
        &&& lsr_word(
            cbc, tdrive, idrivep_ls, idriven_ls
        ) ==
        1024 * cbc + 256 * tdrive + 16 * idrivep_ls + idriven_ls
        &&& (lsr_word(
            cbc, tdrive, idrivep_ls, idriven_ls
        ) / 1024) % 2 == cbc
        &&& (lsr_word(
            cbc, tdrive, idrivep_ls, idriven_ls
        ) / 256) % 4 == tdrive
        &&& (lsr_word(
            cbc, tdrive, idrivep_ls, idriven_ls
        ) / 16) % 16 == idrivep_ls
        &&& (lsr_word(
            cbc, tdrive, idrivep_ls, idriven_ls
        ) / 1) % 16 == idriven_ls
    }) by (bit_vector)
        requires
            cbc < 2,
            tdrive < 4,
            idrivep_ls < 16,
            idriven_ls < 16,
    ;
}

/// The codes of the overcurrent protection control register combined bit by bit, each shifted
/// to the offset of its field.
pub open spec fn ocpcr_word(
    tretry: u16,
    dead_time: u16,
    ocp_mode: u16,
    ocp_deg: u16,
    vds_lvl: u16,
) -> u16 {
    (tretry << 10) | (dead_time << 8) | (ocp_mode << 6) | (ocp_deg << 4) | vds_lvl
}

/// Fields of the overcurrent protection control register: with every code inside its field, the
/// payload is the bitwise combination of the codes, each shifted to the
/// offset of its field; no two fields share a bit, so each field holds
/// exactly the code that was given for it.
pub proof fn lemma_ocpcr_fields(
    tretry: u16,
    dead_time: u16,
    ocp_mode: u16,
    ocp_deg: u16,
    vds_lvl: u16,
)
    requires
        tretry < 2,
        dead_time < 4,
        ocp_mode < 4,
        ocp_deg < 4,
        vds_lvl < 16,
    ensures
        spec_ocpcr_payload(
            tretry, dead_time, ocp_mode, ocp_deg, vds_lvl
        ) == ocpcr_word(
            tretry, dead_time, ocp_mode, ocp_deg, vds_lvl
        ),
        held(ocpcr_word(
            tretry, dead_time, ocp_mode, ocp_deg, vds_lvl
        ), 1024, 2) == tretry,
        held(ocpcr_word(
            tretry, dead_time, ocp_mode, ocp_deg, vds_lvl
        ), 256, 4) == dead_time,
        held(ocpcr_word(
            tretry, dead_time, ocp_mode, ocp_deg, vds_lvl
        ), 64, 4) == ocp_mode,
        held(ocpcr_word(
            tretry, dead_time, ocp_mode, ocp_deg, vds_lvl
        ), 16, 4) == ocp_deg,
        held(ocpcr_word(
            tretry, dead_time, ocp_mode, ocp_deg, vds_lvl
        ), 1, 16) == vds_lvl,
{
    assert({
        &&& ocpcr_word(
            tretry, dead_time, ocp_mode, ocp_deg, vds_lvl
        ) ==
        1024 * tretry + 256 * dead_time + 64 * ocp_mode + 16 * ocp_deg + vds_lvl
        &&& (ocpcr_word(
            tretry, dead_time, ocp_mode, ocp_deg, vds_lvl
        ) / 1024) % 2 == tretry
        &&& (ocpcr_word(
            tretry, dead_time, ocp_mode, ocp_deg, vds_lvl
        ) / 256) % 4 == dead_time
        &&& (ocpcr_word(
            tretry, dead_time, ocp_mode, ocp_deg, vds_lvl
        ) / 64) % 4 == ocp_mode
        &&& (ocpcr_word(
            tretry, dead_time, ocp_mode, ocp_deg, vds_lvl
        ) / 16) % 4 == ocp_deg
        &&& (ocpcr_word(
            tretry, dead_time, ocp_mode, ocp_deg, vds_lvl
        ) / 1) % 16 == vds_lvl
    }) by (bit_vector)
        requires
            tretry < 2,
            dead_time < 4,
            ocp_mode < 4,
            ocp_deg < 4,
            vds_lvl < 16,
    ;
}

/// The codes of the current-sense amplifier control register combined bit by bit, each shifted
/// to the offset of its field.
pub open spec fn csacr_word(
    csa_fet: u16,
    vref_div: u16,
    ls_ref: u16,
    csa_gain: u16,
    dis_sen: u16,
    csa_cal_a: u16,
    csa_cal_b: u16,
    csa_cal_c: u16,
    sen_lvl: u16,
) -> u16 {
    (csa_fet << 10) | (vref_div << 9) | (ls_ref << 8) | (csa_gain << 6) | (dis_sen << 5) |
    (csa_cal_a << 4) | (csa_cal_b << 3) | (csa_cal_c << 2) | sen_lvl
}

/// Fields of the current-sense amplifier control register: with every code inside its field, the
/// payload is the bitwise combination of the codes, each shifted to the
/// offset of its field; no two fields share a bit, so each field holds
/// exactly the code that was given for it.
pub proof fn lemma_csacr_fields(
    csa_fet: u16,
    vref_div: u16,
    ls_ref: u16,
    csa_gain: u16,
    dis_sen: u16,
    csa_cal_a: u16,
    csa_cal_b: u16,
    csa_cal_c: u16,
    sen_lvl: u16,
)
    requires
        csa_fet < 2,
        vref_div < 2,
        ls_ref < 2,
        csa_gain < 4,
        dis_sen < 2,
        csa_cal_a < 2,
        csa_cal_b < 2,
        csa_cal_c < 2,
        sen_lvl < 4,
    ensures
        spec_csacr_payload(
            csa_fet, vref_div, ls_ref, csa_gain, dis_sen, csa_cal_a, csa_cal_b, csa_cal_c,
            sen_lvl
        ) == csacr_word(
            csa_fet, vref_div, ls_ref, csa_gain, dis_sen, csa_cal_a, csa_cal_b, csa_cal_c,
            sen_lvl
        ),
        held(csacr_word(
            csa_fet, vref_div, ls_ref, csa_gain, dis_sen, csa_cal_a, csa_cal_b, csa_cal_c,
            sen_lvl
        ), 1024, 2) == csa_fet,
        held(csacr_word(
            csa_fet, vref_div, ls_ref, csa_gain, dis_sen, csa_cal_a, csa_cal_b, csa_cal_c,
            sen_lvl
        ), 512, 2) == vref_div,
        held(csacr_word(
            csa_fet, vref_div, ls_ref, csa_gain, dis_sen, csa_cal_a, csa_cal_b, csa_cal_c,
            sen_lvl
        ), 256, 2) == ls_ref,
        held(csacr_word(
            csa_fet, vref_div, ls_ref, csa_gain, dis_sen, csa_cal_a, csa_cal_b, csa_cal_c,
            sen_lvl
        ), 64, 4) == csa_gain,
        held(csacr_word(
            csa_fet, vref_div, ls_ref, csa_gain, dis_sen, csa_cal_a, csa_cal_b, csa_cal_c,
            sen_lvl
        ), 32, 2) == dis_sen,
        held(csacr_word(
            csa_fet, vref_div, ls_ref, csa_gain, dis_sen, csa_cal_a, csa_cal_b, csa_cal_c,
            sen_lvl
        ), 16, 2) == csa_cal_a,
        held(csacr_word(
            csa_fet, vref_div, ls_ref, csa_gain, dis_sen, csa_cal_a, csa_cal_b, csa_cal_c,
            sen_lvl
        ), 8, 2) == csa_cal_b,
        held(csacr_word(
            csa_fet, vref_div, ls_ref, csa_gain, dis_sen, csa_cal_a, csa_cal_b, csa_cal_c,
            sen_lvl
        ), 4, 2) == csa_cal_c,
        held(csacr_word(
            csa_fet, vref_div, ls_ref, csa_gain, dis_sen, csa_cal_a, csa_cal_b, csa_cal_c,
            sen_lvl
        ), 1, 4) == sen_lvl,
{
    assert({
        &&& csacr_word(
            csa_fet, vref_div, ls_ref, csa_gain, dis_sen, csa_cal_a, csa_cal_b, csa_cal_c,
            sen_lvl
        ) ==
        1024 * csa_fet + 512 * vref_div + 256 * ls_ref + 64 * csa_gain + 32 * dis_sen +
        16 * csa_cal_a + 8 * csa_cal_b + 4 * csa_cal_c + sen_lvl
        &&& (csacr_word(
            csa_fet, vref_div, ls_ref, csa_gain, dis_sen, csa_cal_a, csa_cal_b, csa_cal_c,
            sen_lvl
        ) / 1024) % 2 == csa_fet
        &&& (csacr_word(
            csa_fet, vref_div, ls_ref, csa_gain, dis_sen, csa_cal_a, csa_cal_b, csa_cal_c,
            sen_lvl
        ) / 512) % 2 == vref_div
        &&& (csacr_word(
            csa_fet, vref_div, ls_ref, csa_gain, dis_sen, csa_cal_a, csa_cal_b, csa_cal_c,
            sen_lvl
        ) / 256) % 2 == ls_ref
        &&& (csacr_word(
            csa_fet, vref_div, ls_ref, csa_gain, dis_sen, csa_cal_a, csa_cal_b, csa_cal_c,
            sen_lvl
        ) / 64) % 4 == csa_gain
        &&& (csacr_word(
            csa_fet, vref_div, ls_ref, csa_gain, dis_sen, csa_cal_a, csa_cal_b, csa_cal_c,
            sen_lvl
        ) / 32) % 2 == dis_sen
        &&& (csacr_word(
            csa_fet, vref_div, ls_ref, csa_gain, dis_sen, csa_cal_a, csa_cal_b, csa_cal_c,
            sen_lvl
        ) / 16) % 2 == csa_cal_a
        &&& (csacr_word(
            csa_fet, vref_div, ls_ref, csa_gain, dis_sen, csa_cal_a, csa_cal_b, csa_cal_c,
            sen_lvl
        ) / 8) % 2 == csa_cal_b
        &&& (csacr_word(
            csa_fet, vref_div, ls_ref, csa_gain, dis_sen, csa_cal_a, csa_cal_b, csa_cal_c,
            sen_lvl
        ) / 4) % 2 == csa_cal_c
        &&& (csacr_word(
            csa_fet, vref_div, ls_ref, csa_gain, dis_sen, csa_cal_a, csa_cal_b, csa_cal_c,
            sen_lvl
        ) / 1) % 4 == sen_lvl
    }) by (bit_vector)
        requires
            csa_fet < 2,
            vref_div < 2,
            ls_ref < 2,
            csa_gain < 4,
            dis_sen < 2,
            csa_cal_a < 2,
            csa_cal_b < 2,
            csa_cal_c < 2,
            sen_lvl < 4,
    ;
}

} // verus!
