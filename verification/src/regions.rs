use vstd::prelude::*;

verus! {

/// The closed set of geographic regions the remote API partitions
/// listings by.
#[derive(Clone, Copy, PartialEq, Eq, Hash, Debug, Structural)]
pub enum Region {
    Blekinge,
    Dalarna,
    Gotland,
    Gavleborg,
    Halland,
    Jamtland,
    Jonkoping,
    Kalmar,
    Kronoberg,
    Norrbotten,
    Skane,
    Stockholm,
    Sodermanland,
    Uppsala,
    Varmland,
    Vasterbotten,
    Vasternorrland,
    Vastmanland,
    VastraGotaland,
    Orebro,
    Ostergotland,
}

impl Region {
    /// The opaque code the remote API expects for this region.
    pub open spec fn code_spec(self) -> Seq<char> {
        match self {
            Region::Blekinge => "DQZd_uYs_oKb"@,
            Region::Dalarna => "oDpK_oZ2_WYt"@,
            Region::Gotland => "K8iD_VQv_2BA"@,
            Region::Gavleborg => "zupA_8Nt_xcD"@,
            Region::Halland => "wjee_qH2_yb6"@,
            Region::Jamtland => "65Ms_7r1_RTG"@,
            Region::Jonkoping => "MtbE_xWT_eMi"@,
            Region::Kalmar => "9QUH_2bb_6Np"@,
            Region::Kronoberg => "tF3y_MF9_h5G"@,
            Region::Norrbotten => "9hXe_F4g_eTG"@,
            Region::Skane => "CaRE_1nn_cSU"@,
            Region::Stockholm => "CifL_Rzy_Mku"@,
            Region::Sodermanland => "s93u_BEb_sx2"@,
            Region::Uppsala => "zBon_eET_fFU"@,
            Region::Varmland => "EVVp_h6U_GSZ"@,
            Region::Vasterbotten => "g5Tt_CAV_zBd"@,
            Region::Vasternorrland => "NvUF_SP1_1zo"@,
            Region::Vastmanland => "G6DV_fKE_Viz"@,
            Region::VastraGotaland => "zdoY_6u5_Krt"@,
            Region::Orebro => "xTCk_nT5_Zjm"@,
            Region::Ostergotland => "oLT3_Q9p_3nn"@,
        }
    }

    /// The opaque code the remote API expects for this region.
    pub fn get_value(&self) -> (code: &'static str)
        ensures
            code@ == self.code_spec(),
    {
        match self {
            Region::Blekinge => "DQZd_uYs_oKb",
            Region::Dalarna => "oDpK_oZ2_WYt",
            Region::Gotland => "K8iD_VQv_2BA",
            Region::Gavleborg => "zupA_8Nt_xcD",
            Region::Halland => "wjee_qH2_yb6",
            Region::Jamtland => "65Ms_7r1_RTG",
            Region::Jonkoping => "MtbE_xWT_eMi",
            Region::Kalmar => "9QUH_2bb_6Np",
            Region::Kronoberg => "tF3y_MF9_h5G",
            Region::Norrbotten => "9hXe_F4g_eTG",
            Region::Skane => "CaRE_1nn_cSU",
            Region::Stockholm => "CifL_Rzy_Mku",
            Region::Sodermanland => "s93u_BEb_sx2",
            Region::Uppsala => "zBon_eET_fFU",
            Region::Varmland => "EVVp_h6U_GSZ",
            Region::Vasterbotten => "g5Tt_CAV_zBd",
            Region::Vasternorrland => "NvUF_SP1_1zo",
            Region::Vastmanland => "G6DV_fKE_Viz",
            Region::VastraGotaland => "zdoY_6u5_Krt",
            Region::Orebro => "xTCk_nT5_Zjm",
            Region::Ostergotland => "oLT3_Q9p_3nn",
        }
    }

    /// The order in which region partitions are enumerated; it is fixed so
    /// that runs are reproducible.
    pub open spec fn order_spec() -> Seq<Region> {
        seq![
            Region::Blekinge,
            Region::Dalarna,
            Region::Gotland,
            Region::Gavleborg,
            Region::Halland,
            Region::Jamtland,
            Region::Jonkoping,
            Region::Kalmar,
            Region::Kronoberg,
            Region::Norrbotten,
            Region::Skane,
            Region::Stockholm,
            Region::Sodermanland,
            Region::Uppsala,
            Region::Varmland,
            Region::Vasterbotten,
            Region::Vasternorrland,
            Region::Vastmanland,
            Region::VastraGotaland,
            Region::Orebro,
            Region::Ostergotland,
        ]
    }

    /// Every region, in enumeration order.
    pub fn all() -> (r: Vec<Region>)
        ensures
            r@ == Region::order_spec(),
    {
        let mut v: Vec<Region> = Vec::new();
        v.push(Region::Blekinge);
        v.push(Region::Dalarna);
        v.push(Region::Gotland);
        v.push(Region::Gavleborg);
        v.push(Region::Halland);
        v.push(Region::Jamtland);
        v.push(Region::Jonkoping);
        v.push(Region::Kalmar);
        v.push(Region::Kronoberg);
        v.push(Region::Norrbotten);
        v.push(Region::Skane);
        v.push(Region::Stockholm);
        v.push(Region::Sodermanland);
        v.push(Region::Uppsala);
        v.push(Region::Varmland);
        v.push(Region::Vasterbotten);
        v.push(Region::Vasternorrland);
        v.push(Region::Vastmanland);
        v.push(Region::VastraGotaland);
        v.push(Region::Orebro);
        v.push(Region::Ostergotland);
        proof {
            assert(v@ =~= Region::order_spec());
        }
        v
    }
}

} // verus!
