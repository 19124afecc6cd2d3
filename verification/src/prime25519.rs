//! The field prime `2^255 - 19`, and that the curve constant has no square root modulo it.
//!
//! Primality rests on a chain of primes, each of which divides the predecessor of the
//! next: 991, then primes of 24, 51, 116 and 236 bits, then the field prime. Each link is
//! an application of Pocklington's criterion, whose powers are worked out bit by bit.
use vstd::arithmetic::power::*;
use vstd::prelude::*;

use crate::edwards;
use crate::fp;
use crate::modular;
use crate::powers;
use crate::primes;

verus! {

/// The first prime of the chain, by trial division.
proof fn lemma_prime_10()
    ensures
        primes::is_prime(991),
{
    assert forall|k: int| 1 < k < 32 implies #[trigger] (991int % k) != 0 by {
        lemma_trial_991(k);
    }
    primes::lemma_trial_division(991, 32);
}

proof fn lemma_trial_991(k: int)
    requires
        1 < k < 32,
    ensures
        991int % k != 0,
{
    if k == 2 { assert(991int % 2 != 0); }
    if k == 3 { assert(991int % 3 != 0); }
    if k == 4 { assert(991int % 4 != 0); }
    if k == 5 { assert(991int % 5 != 0); }
    if k == 6 { assert(991int % 6 != 0); }
    if k == 7 { assert(991int % 7 != 0); }
    if k == 8 { assert(991int % 8 != 0); }
    if k == 9 { assert(991int % 9 != 0); }
    if k == 10 { assert(991int % 10 != 0); }
    if k == 11 { assert(991int % 11 != 0); }
    if k == 12 { assert(991int % 12 != 0); }
    if k == 13 { assert(991int % 13 != 0); }
    if k == 14 { assert(991int % 14 != 0); }
    if k == 15 { assert(991int % 15 != 0); }
    if k == 16 { assert(991int % 16 != 0); }
    if k == 17 { assert(991int % 17 != 0); }
    if k == 18 { assert(991int % 18 != 0); }
    if k == 19 { assert(991int % 19 != 0); }
    if k == 20 { assert(991int % 20 != 0); }
    if k == 21 { assert(991int % 21 != 0); }
    if k == 22 { assert(991int % 22 != 0); }
    if k == 23 { assert(991int % 23 != 0); }
    if k == 24 { assert(991int % 24 != 0); }
    if k == 25 { assert(991int % 25 != 0); }
    if k == 26 { assert(991int % 26 != 0); }
    if k == 27 { assert(991int % 27 != 0); }
    if k == 28 { assert(991int % 28 != 0); }
    if k == 29 { assert(991int % 29 != 0); }
    if k == 30 { assert(991int % 30 != 0); }
    if k == 31 { assert(991int % 31 != 0); }
}

/// The witness for the 24-bit prime to the power of the cofactor.
proof fn lemma_prime_24_base()
    ensures
        pow(0x2int, 8652) % 0x82d4b5int == 0x346cd1int,
{
    lemma_pow1(0x2int);
    powers::lemma_walk_eight(
        0x2int,
        0x82d4b5int,
        1nat,
        0x2int,
        (false, false, false, false, true, true, true, false),
        0x4int,
        0x10int,
        0x100int,
        0x10000int,
        0x6e4843int,
        0x5f870dint,
        0x69105int,
        0xa56eeint,
    );
    powers::lemma_walk_one(0x2int, 0x82d4b5int, 270nat, 0xa56eeint, false, 0x6ff309int);
    powers::lemma_walk_one(0x2int, 0x82d4b5int, 540nat, 0x6ff309int, true, 0x1e917bint);
    powers::lemma_walk_one(0x2int, 0x82d4b5int, 1081nat, 0x1e917bint, true, 0x1108cint);
    powers::lemma_walk_one(0x2int, 0x82d4b5int, 2163nat, 0x1108cint, false, 0x64afadint);
    powers::lemma_walk_one(0x2int, 0x82d4b5int, 4326nat, 0x64afadint, false, 0x346cd1int);
}

/// The remaining power is one.
proof fn lemma_prime_24_order()
    ensures
        pow(0x346cd1int, 991) % 0x82d4b5int == 0x1int,
{
    lemma_pow1(0x346cd1int);
    powers::lemma_walk_eight(
        0x346cd1int,
        0x82d4b5int,
        1nat,
        0x346cd1int,
        (true, true, true, false, true, true, true, true),
        0x730281int,
        0x7c5d46int,
        0x67873cint,
        0x525f9aint,
        0x159ed7int,
        0x62feceint,
        0x4cd86aint,
        0x7520bcint,
    );
    powers::lemma_walk_one(0x346cd1int, 0x82d4b5int, 495nat, 0x7520bcint, true, 0x1int);
}

/// The 24-bit prime of the chain.
proof fn lemma_prime_24()
    ensures
        primes::is_prime(8574133int),
{
    lemma_prime_10();
    lemma_prime_24_base();
    lemma_prime_24_order();
    powers::lemma_compose(2, 8574133, 8652nat, 991nat, 0x346cd1int, 1);
    powers::lemma_less_one(2, 8574133, 8652nat, 0x346cd1int, 0xf79ebint);
    primes::lemma_pocklington(8574133, 991, 8652nat, 2, 0xf79ebint);
}

/// The witness for the 51-bit prime to the power of the cofactor.
proof fn lemma_prime_51_base()
    ensures
        pow(0x2int, 223873314nat) % 0x6d1cafa129d0bint == 0x3c3ffdef7c0b1int,
{
    lemma_pow1(0x2int);
    powers::lemma_walk_eight(
        0x2int,
        0x6d1cafa129d0bint,
        1nat,
        0x2int,
        (true, false, true, false, true, false, true, true),
        0x8int,
        0x40int,
        0x2000int,
        0x4000000int,
        0x4b8d417b58bd4int,
        0x3bb9bdc82f6e4int,
        0x5f18e786eab62int,
        0x34a24d67198b2int,
    );
    powers::lemma_walk_eight(
        0x2int,
        0x6d1cafa129d0bint,
        427nat,
        0x34a24d67198b2int,
        (false, false, false, false, false, false, false, true),
        0x404d9a606b02cint,
        0x6a2603b88121bint,
        0x19004c5c350dfint,
        0x42d8f2a2ec64aint,
        0x508eccc5fc7a7int,
        0xd194095d85caint,
        0x4eb4d9d00b27cint,
        0x28416ba0b6a57int,
    );
    powers::lemma_walk_eight(
        0x2int,
        0x6d1cafa129d0bint,
        109313nat,
        0x28416ba0b6a57int,
        (false, false, true, false, false, true, false, false),
        0x2eb989126ce8eint,
        0x5772cd6bce94bint,
        0x5d322c8ac0852int,
        0x4e0d9428f0339int,
        0xfeb816ba61afint,
        0x4c0d7a2b0b64bint,
        0x259cb28ce652dint,
        0x38f03576a55f7int,
    );
    powers::lemma_walk_one(0x2int, 0x6d1cafa129d0bint, 27984164nat, 0x38f03576a55f7int, false,
        0x675002e71f67fint);
    powers::lemma_walk_one(0x2int, 0x6d1cafa129d0bint, 55968328nat, 0x675002e71f67fint, true,
        0x14b705744ee84int);
    powers::lemma_walk_one(0x2int, 0x6d1cafa129d0bint, 111936657nat, 0x14b705744ee84int, false,
        0x3c3ffdef7c0b1int);
}

/// The remaining power is one.
proof fn lemma_prime_51_order()
    ensures
        pow(0x3c3ffdef7c0b1int, 8574133nat) % 0x6d1cafa129d0bint == 0x1int,
{
    lemma_pow1(0x3c3ffdef7c0b1int);
    powers::lemma_walk_eight(
        0x3c3ffdef7c0b1int,
        0x6d1cafa129d0bint,
        1nat,
        0x3c3ffdef7c0b1int,
        (false, false, false, false, false, true, false, true),
        0x158280d1c7fe9int,
        0x8343f3dc7de5int,
        0xa1a81c865ef3int,
        0x392a5595195ebint,
        0x612344a925350int,
        0x2c250f4ecd406int,
        0x626b6bf964a0bint,
        0x6bb9918006e92int,
    );
    powers::lemma_walk_eight(
        0x3c3ffdef7c0b1int,
        0x6d1cafa129d0bint,
        261nat,
        0x6bb9918006e92int,
        (true, false, true, false, true, false, false, true),
        0x1af1b0376649dint,
        0x32382c25445faint,
        0x67339e4b07ecdint,
        0x293c7db21880dint,
        0x3e3bdbc06dca4int,
        0x6bd0e231a5cd1int,
        0x5319205ebe88cint,
        0x65459d5b3f521int,
    );
    powers::lemma_walk_one(0x3c3ffdef7c0b1int, 0x6d1cafa129d0bint, 66985nat, 0x65459d5b3f521int,
        false, 0x2741e82e93a2cint);
    powers::lemma_walk_one(0x3c3ffdef7c0b1int, 0x6d1cafa129d0bint, 133970nat, 0x2741e82e93a2cint,
        true, 0x1efe5f3dc2faaint);
    powers::lemma_walk_one(0x3c3ffdef7c0b1int, 0x6d1cafa129d0bint, 267941nat, 0x1efe5f3dc2faaint,
        true, 0x11a52cb514f6bint);
    powers::lemma_walk_one(0x3c3ffdef7c0b1int, 0x6d1cafa129d0bint, 535883nat, 0x11a52cb514f6bint,
        false, 0x29c454b86c6a2int);
    powers::lemma_walk_one(0x3c3ffdef7c0b1int, 0x6d1cafa129d0bint, 1071766nat,
        0x29c454b86c6a2int, true, 0x5967ff7111a20int);
    powers::lemma_walk_one(0x3c3ffdef7c0b1int, 0x6d1cafa129d0bint, 2143533nat,
        0x5967ff7111a20int, false, 0x3691e18f9008bint);
    powers::lemma_walk_one(0x3c3ffdef7c0b1int, 0x6d1cafa129d0bint, 4287066nat,
        0x3691e18f9008bint, true, 0x1int);
}

/// The 51-bit prime of the chain.
proof fn lemma_prime_51()
    ensures
        primes::is_prime(1919519569386763int),
{
    lemma_prime_24();
    lemma_prime_51_base();
    lemma_prime_51_order();
    powers::lemma_compose(2, 1919519569386763int, 223873314nat, 8574133nat, 0x3c3ffdef7c0b1int, 1);
    powers::lemma_less_one(2, 1919519569386763int, 223873314nat, 0x3c3ffdef7c0b1int,
        0x495bef080ea35int);
    primes::lemma_pocklington(1919519569386763int, 8574133, 223873314nat, 2, 0x495bef080ea35int);
}

proof fn lemma_prime_116_base_0()
    ensures
        pow(0x2int, 299869320993403nat) % 0xe87c2a477b815a1793787395b23e1int
            == 0x2c1c1d1b66208396c9e0da8cee21fint,
{
    lemma_pow1(0x2int);
    powers::lemma_walk_eight(
        0x2int,
        0xe87c2a477b815a1793787395b23e1int,
        1nat,
        0x2int,
        (false, false, false, true, false, false, false, false),
        0x4int,
        0x10int,
        0x100int,
        0x20000int,
        0x400000000int,
        0x100000000000000000int,
        0x72c84b3dffef4313c76ee90369f15int,
        0x17dbb00000int,
    );
    powers::lemma_walk_eight(
        0x2int,
        0xe87c2a477b815a1793787395b23e1int,
        272nat,
        0x17dbb00000int,
        (true, false, true, true, true, false, true, false),
        0x4726c4d320000000000int,
        0xb14f313a2832003e0df7609d25e6cint,
        0xa868cd4e3f37a9c111b58cd538fa6int,
        0xbdd70817144567f7b79ffd24f00ddint,
        0x9e10535caff837d7c5291aa75141eint,
        0xda7fef63e9d7012b44eb0b43a967bint,
        0x65129e2b8099eaef71586722e7190int,
        0x772a1cbc4df204759de3128d27123int,
    );
    powers::lemma_walk_eight(
        0x2int,
        0xe87c2a477b815a1793787395b23e1int,
        69818nat,
        0x772a1cbc4df204759de3128d27123int,
        (true, true, false, false, false, true, false, false),
        0xc5a158f0a198c844e78c5278e7e52int,
        0x9764b1a5c7ff9e68e8907cdd3c8ddint,
        0xa27df394215b46f6c316c3cc1aecdint,
        0xa408a65f29ca1e95758135af3e099int,
        0x1500cbd7bb1659c25e95a8d280a0dint,
        0x544894318d7866f3a797114a93bbdint,
        0x70393e8f73104ca3641dc4c0d9ecfint,
        0x4ea08212a042d1f9374dd1823950bint,
    );
    powers::lemma_walk_eight(
        0x2int,
        0xe87c2a477b815a1793787395b23e1int,
        17873604nat,
        0x4ea08212a042d1f9374dd1823950bint,
        (false, true, false, true, true, false, true, true),
        0xb2171325b2f1c1a49ecc867d5f24fint,
        0xbf86be0836a3f23e7b5aaf7dd85dbint,
        0xbc4e928b1eee0a099e939a6915cbaint,
        0xe5573ae0f6d4b703deefa97bb7a34int,
        0x28070f0ce68ad04dceeba5b7628b1int,
        0x1bc45971a75ce48d787f1c94a000dint,
        0x7fd4bd56803e8342be3d722fe61ebint,
        0x71fe4636598a26698c235a47f93c1int,
    );
    powers::lemma_walk_eight(
        0x2int,
        0xe87c2a477b815a1793787395b23e1int,
        4575642715nat,
        0x71fe4636598a26698c235a47f93c1int,
        (false, true, false, true, true, false, true, false),
        0x194edff57d80e5c9761410876addint,
        0x4d5e3bd4945f807e7638c00287398int,
        0x9655fe00e0ab5d432b07544c38a1eint,
        0x4891f7e860d2c9d222d333e55ab66int,
        0x695d4a8e9b68c082ac4a078aef045int,
        0x491c3082d7b3a52763f0c34935a32int,
        0xe4e7c5fff7f1a4e4a7840821d6d3fint,
        0x52ce25a2a94ee92c92fefeed83f4int,
    );
    powers::lemma_walk_eight(
        0x2int,
        0xe87c2a477b815a1793787395b23e1int,
        1171364535130nat,
        0x52ce25a2a94ee92c92fefeed83f4int,
        (false, true, true, true, true, false, true, true),
        0xb2575d2efa93bf6464d7cad7b9ef9int,
        0xd50dfd42379cb9efe235ad9f22ff0int,
        0x2716ede1f0e14a2cd2598ee19a7a7int,
        0x2896afd472c9e7936a6c2e22acc48int,
        0x7783d69e20ee3bf78a6d9f9b8adfdint,
        0xba83b9ca1b9b2ea43e1482f95f6eint,
        0x77cd05566e32877c6fb20cfb413b0int,
        0x2c1c1d1b66208396c9e0da8cee21fint,
    );
}

proof fn lemma_prime_116_base_1()
    requires
        pow(0x2int, 299869320993403nat) % 0xe87c2a477b815a1793787395b23e1int
            == 0x2c1c1d1b66208396c9e0da8cee21fint,
    ensures
        pow(0x2int, 39304471641247389600nat) % 0xe87c2a477b815a1793787395b23e1int
            == 0xaedd80ab27e8de3ca5f2fb22d5403int,
{
    powers::lemma_walk_eight(
        0x2int,
        0xe87c2a477b815a1793787395b23e1int,
        299869320993403nat,
        0x2c1c1d1b66208396c9e0da8cee21fint,
        (true, false, false, false, true, false, true, true),
        0xdf4dd6133cbda34c81eefdf0eff1dint,
        0xa31574edd1a0be7dedc6b54c7372dint,
        0x86959b1bdaff2d9081466493d02d3int,
        0x23214b91898e53491cdacb364abd9int,
        0x3a599df33217093dc572ca5aab5a7int,
        0xbafbde5ebc386be1553b0f6390429int,
        0x808952037acc622251ea44cf13b7aint,
        0x142094c51b5dbc59a5329d5e22371int,
    );
    powers::lemma_walk_eight(
        0x2int,
        0xe87c2a477b815a1793787395b23e1int,
        76766546174311307nat,
        0x142094c51b5dbc59a5329d5e22371int,
        (true, true, false, true, false, false, false, false),
        0x2a989a902fb9217d482069bed88b1int,
        0xde23ceb3a7a098965b2aa5ba2825eint,
        0x5d1f3bbb944c1e87f26a0cc7e9fbint,
        0xd14c927b6590d0999886a314c1682int,
        0x89b84ebdbb5f3ab59c3b0ef8b7512int,
        0x4e306d573a851f226efe4f75ae6ecint,
        0xcacb8bb8eee5d766f99fca73955b2int,
        0x85962565b5b70a66c6e9c7ccdeabint,
    );
    powers::lemma_walk_one(0x2int, 0xe87c2a477b815a1793787395b23e1int, 19652235820623694800nat,
        0x85962565b5b70a66c6e9c7ccdeabint, false, 0xaedd80ab27e8de3ca5f2fb22d5403int);
}

/// The witness for the 116-bit prime to the power of the cofactor.
proof fn lemma_prime_116_base()
    ensures
        pow(0x2int, 39304471641247389600nat) % 0xe87c2a477b815a1793787395b23e1int
            == 0xaedd80ab27e8de3ca5f2fb22d5403int,
{
    lemma_prime_116_base_0();
    lemma_prime_116_base_1();
}

proof fn lemma_prime_116_order_0()
    ensures
        pow(0xaedd80ab27e8de3ca5f2fb22d5403int,
            479879892346690nat) % 0xe87c2a477b815a1793787395b23e1int
            == 0x570414ecf62a60bea569123ff9dbdint,
{
    lemma_pow1(0xaedd80ab27e8de3ca5f2fb22d5403int);
    powers::lemma_walk_eight(
        0xaedd80ab27e8de3ca5f2fb22d5403int,
        0xe87c2a477b815a1793787395b23e1int,
        1nat,
        0xaedd80ab27e8de3ca5f2fb22d5403int,
        (true, false, true, true, false, true, false, false),
        0x22f28959a6094f3ec9a3cec3753fdint,
        0x7b07abf2a0bdfa0b9dd400295abint,
        0x17406961c43ff0fec5a4ebd17405fint,
        0x86f41bda7c9b2a0ea67579a5971cdint,
        0x9d0091ad15cf6e36495814c254374int,
        0x53d31a0a415a647d81ba17c64cb9cint,
        0x2b2ff71ac81a474c712d0b8b1f329int,
        0x71f9ced5e7ced7df9a9a7c51912e1int,
    );
    powers::lemma_walk_eight(
        0xaedd80ab27e8de3ca5f2fb22d5403int,
        0xe87c2a477b815a1793787395b23e1int,
        436nat,
        0x71f9ced5e7ced7df9a9a7c51912e1int,
        (false, true, true, true, false, false, true, false),
        0xdd81996ef5ee110e553634ae0f1d1int,
        0x8a4ce1ca61270808e9f80c903fa92int,
        0x2f3ed96edb813d61b2da8bf51ce29int,
        0xb93588d98b41cdea0a321d17728int,
        0xdd0d55144f23d57128e602b6b725fint,
        0x311c7da706526c7b84452ad03a077int,
        0x176fb2166802fc583d656ce58fda1int,
        0xe49cda690b91541a0b4bdedd2400bint,
    );
    powers::lemma_walk_eight(
        0xaedd80ab27e8de3ca5f2fb22d5403int,
        0xe87c2a477b815a1793787395b23e1int,
        111730nat,
        0xe49cda690b91541a0b4bdedd2400bint,
        (true, false, true, true, true, true, true, false),
        0x14051b811dcd6cc4d88bd19834f2eint,
        0x832c61ba16d59cb5e168e09fefff3int,
        0x195189d68cb9280e581c0ea0d2fe2int,
        0x3153b661018255cbd0a0f75054ca4int,
        0x1d9d5ac3cfc7c71eb392e60e345b8int,
        0xdef4b93c246326ad733ff245e8807int,
        0x2fa31f134f23bd7fd36f5d18337bcint,
        0x1a044229e28f73659f53fba8831aeint,
    );
    powers::lemma_walk_eight(
        0xaedd80ab27e8de3ca5f2fb22d5403int,
        0xe87c2a477b815a1793787395b23e1int,
        28603070nat,
        0x1a044229e28f73659f53fba8831aeint,
        (true, false, false, false, false, true, false, false),
        0x21ff9c4e06fc08717d7447d7a9696int,
        0x2b80db59644f026a0903288aaaa5dint,
        0xa3f6d8bae90507075a3515b89fd58int,
        0x8abf84e490585b935976b1bdd486bint,
        0x93b03ea99805f634625c94e0aedf8int,
        0x523c96f162978ca422a4dfdd98edbint,
        0x83433b15f03439cf39f87f61b2704int,
        0x74d5f338e0a6231fe90cf6f410723int,
    );
    powers::lemma_walk_eight(
        0xaedd80ab27e8de3ca5f2fb22d5403int,
        0xe87c2a477b815a1793787395b23e1int,
        7322386052nat,
        0x74d5f338e0a6231fe90cf6f410723int,
        (true, false, true, false, false, true, true, true),
        0x25fa893e3cde365fed4f034118db6int,
        0x1acf64ac33b953f3a87c1cd463c50int,
        0x8cda73d5157a5b35948e623134b41int,
        0xd2f25f4ad230f919bdeb95c0e36f4int,
        0x4436bc1a94d40dbb06bbcfb1d8b38int,
        0x2b021a7ab552f243edc3ba9800c8eint,
        0xc75cfb041436c33c739fc0605b903int,
        0x8b6152c1cfcd0923cce5add5d51c5int,
    );
    powers::lemma_walk_eight(
        0xaedd80ab27e8de3ca5f2fb22d5403int,
        0xe87c2a477b815a1793787395b23e1int,
        1874530829479nat,
        0x8b6152c1cfcd0923cce5add5d51c5int,
        (false, true, false, false, false, false, true, false),
        0x96b899fdc0647b954aaad72656e3dint,
        0xdd5967d7f15948d246efbdead218cint,
        0x69d4d43d2894618c2459bec1393a5int,
        0x7ad56a78a8c4b8c1209fe3b3e6158int,
        0x3560eb68b455391e24f403ac8f46aint,
        0x26780b9ac5112b06374380fca4b4cint,
        0xa812cf0dbf2e7642952efba327e7aint,
        0x570414ecf62a60bea569123ff9dbdint,
    );
}

proof fn lemma_prime_116_order_1()
    requires
        pow(0xaedd80ab27e8de3ca5f2fb22d5403int,
            479879892346690nat) % 0xe87c2a477b815a1793787395b23e1int
            == 0x570414ecf62a60bea569123ff9dbdint,
    ensures
        pow(0xaedd80ab27e8de3ca5f2fb22d5403int,
            1919519569386763nat) % 0xe87c2a477b815a1793787395b23e1int == 0x1int,
{
    powers::lemma_walk_one(0xaedd80ab27e8de3ca5f2fb22d5403int,
        0xe87c2a477b815a1793787395b23e1int, 479879892346690nat,
        0x570414ecf62a60bea569123ff9dbdint, true, 0xa4f5edfceeba5f3a9bd38539b0d94int);
    powers::lemma_walk_one(0xaedd80ab27e8de3ca5f2fb22d5403int,
        0xe87c2a477b815a1793787395b23e1int, 959759784693381nat,
        0xa4f5edfceeba5f3a9bd38539b0d94int, true, 0x1int);
}

/// The remaining power is one.
proof fn lemma_prime_116_order()
    ensures
        pow(0xaedd80ab27e8de3ca5f2fb22d5403int,
            1919519569386763nat) % 0xe87c2a477b815a1793787395b23e1int == 0x1int,
{
    lemma_prime_116_order_0();
    lemma_prime_116_order_1();
}

/// The 116-bit prime of the chain.
proof fn lemma_prime_116()
    ensures
        primes::is_prime(75445702479781427272750846543864801int),
{
    lemma_prime_51();
    lemma_prime_116_base();
    lemma_prime_116_order();
    powers::lemma_compose(2, 75445702479781427272750846543864801int, 39304471641247389600nat,
        1919519569386763nat, 0xaedd80ab27e8de3ca5f2fb22d5403int, 1);
    powers::lemma_less_one(2, 75445702479781427272750846543864801int, 39304471641247389600nat,
        0xaedd80ab27e8de3ca5f2fb22d5403int, 0xe5e342b4c0a3d507894bab5f20e8bint);
    primes::lemma_pocklington(75445702479781427272750846543864801int, 1919519569386763int,
        39304471641247389600nat, 2, 0xe5e342b4c0a3d507894bab5f20e8bint);
}

proof fn lemma_prime_236_base_0()
    ensures
        pow(0x2int, 415727762731470nat) % 0xabaf8c6b094fd0f32c2ccabab864dbecd99144679c1adf804898fb2042bint == 0x8ae0254f62995e149367320aa32b3275044ac79839f4008b2ebc57c4e36int,
{
    lemma_pow1(0x2int);
    powers::lemma_walk_eight(
        0x2int,
        0xabaf8c6b094fd0f32c2ccabab864dbecd99144679c1adf804898fb2042bint,
        1nat,
        0x2int,
        (false, true, true, true, true, false, true, false),
        0x4int,
        0x20int,
        0x800int,
        0x800000int,
        0x800000000000int,
        0x400000000000000000000000int,
        0x200000000000000000000000000000000000000000000000int,
        0xa0000000000000000000000000000000int,
    );
    powers::lemma_walk_eight(
        0x2int,
        0xabaf8c6b094fd0f32c2ccabab864dbecd99144679c1adf804898fb2042bint,
        378nat,
        0xa0000000000000000000000000000000int,
        (false, false, false, true, true, false, true, false),
        0x1575f18d6129fa1e65859957570c9b7d9b32288cf3835bf009131f64095int,
        0x63417d2de16224cc9589e533f29a4f24edc7fb8be63f893629f8712eb5dint,
        0x9c2295e31767e636259c7c1deed13941559c6c0579a73061da059fefd3fint,
        0x528e4381e9bd824c534fedc9a8c2c54b207db4585f9ea1608d26204f28fint,
        0x2ab2d9be5cddc7ab119c6d5cd8c0067479a78639a092b94fb1a666f9b61int,
        0x73f48ef786a0c82a5410bcef192dd17d7b44506e30444a6ddbcce12d10fint,
        0x1915cb3e4ff6e29f92d957143a9a41090ce287174db79468d575ba7062fint,
        0x7ce9900030775e04fe6fc5e1a0b6f3ae9cdff71700b1f2c0fc96994c295int,
    );
    powers::lemma_walk_eight(
        0x2int,
        0xabaf8c6b094fd0f32c2ccabab864dbecd99144679c1adf804898fb2042bint,
        96794nat,
        0x7ce9900030775e04fe6fc5e1a0b6f3ae9cdff71700b1f2c0fc96994c295int,
        (false, false, true, false, true, false, false, true),
        0x47ed91f9e30696c95f893badb61bd79ac630564c46ebfac55ad80409024int,
        0x6d6910f52314c83c5d97d0ec8dba31017ab2fd248613c256aa925583ce9int,
        0x5422485ff1f494f98dace9fb2dbb7b389b6cc135d9a829625638397d4caint,
        0x638b4d80ea1282170594444c4b6af20e30bf7b3a8df7c13642d404176fdint,
        0x694f9def2b863bcfe29e3efe3af3b25a103f679a95ce819fda29104e084int,
        0x18b0339408243fcef68a5da014a993a89e2ed2e21250e7ab76b7f98f2f9int,
        0x3d5c1fd1357668adbc8cd1a8afdacb0f87fa1ee62680b76b3d822405076int,
        0x9ad8894953481bb13ebe0dfbd7463f237320abbb500bd35d914131fb736int,
    );
    powers::lemma_walk_eight(
        0x2int,
        0xabaf8c6b094fd0f32c2ccabab864dbecd99144679c1adf804898fb2042bint,
        24779305nat,
        0x9ad8894953481bb13ebe0dfbd7463f237320abbb500bd35d914131fb736int,
        (true, false, false, true, true, true, true, false),
        0xaae8f053ae2ed9801733deb180bfa3073cd78cdb29a508fb08902164a25int,
        0x6d8f8fb5ce21b8c0c7b3a311406adb88cc8672e9fe2eed169f1b4b55a2cint,
        0x44fcdedf04753ed8c8ee915986db0b0a72ae2d45022447a3a9dc506e3efint,
        0x240276ddb10caecaf7d3e5df844ffbe9e810e888ce454cc7646bb87c6b3int,
        0x4c93bfc17e5eed011591d724972c15ad4f0c7db6a31c19d543fec4f6338int,
        0xf329c742169e5f91659c1b9c517a62f249b58ee3eb97ce145740ea5c42int,
        0x3590cbf2c861435418e1ebbfdc94aa2753fc3dcd96b2e829500460504e4int,
        0x16e3f379ad5b751a496ff90b3142c1fe077abff8bac422ba9f1603668b0int,
    );
    powers::lemma_walk_eight(
        0x2int,
        0xabaf8c6b094fd0f32c2ccabab864dbecd99144679c1adf804898fb2042bint,
        6343502238nat,
        0x16e3f379ad5b751a496ff90b3142c1fe077abff8bac422ba9f1603668b0int,
        (true, true, true, true, false, false, false, true),
        0x81c638239d085d3ad08480a21330a6c834331a6451431a1028d3502ff25int,
        0x9357900ca1515ba1035bab892100b9988dda7494d352741e294486e4b6int,
        0x405bb5b8ca0216da0c6f86ed1333a8bd775fed021a663d4e2b36235719bint,
        0x7d62fcf75f812110cdb472c7ff884a43d480de33f860197f8f6fed500b6int,
        0x904ba4c874b1f0f05b0450a279336362c7e1488ac92ee8f5da6f563364aint,
        0x76494f0a3a3c97814203225ec564b209a6f5546814a0c75daf65d46ffb0int,
        0xa5f7104ec5019bccb3280196d860001a7443841d5ec0ed143bc88362c22int,
        0x5b3dc2fe48132afebaa6033610a1a800fd38e1e0af27e937f3588174316int,
    );
    powers::lemma_walk_eight(
        0x2int,
        0xabaf8c6b094fd0f32c2ccabab864dbecd99144679c1adf804898fb2042bint,
        1623936573169nat,
        0x5b3dc2fe48132afebaa6033610a1a800fd38e1e0af27e937f3588174316int,
        (true, true, false, false, true, true, true, false),
        0xab899e114625eeca247394185b8b10ed04cd483d38b90796a45e4ce6867int,
        0x706bedf360073a520b7b2e5a24d5997e7864fc6bdcaa27a96d516b75eaint,
        0x2ecbe1d5d2a4e8bd96f9b7b79219fb1f19e861a83c56e62b50f54f2cb10int,
        0x480d7ea8eadcb7e4ebb35b1a0cdcd043f5e4cd4d2058172d0c27567b647int,
        0x877adfa6f8638081cc6b9c95ca5cef436014ca8cf2d5d3372d43dfb5928int,
        0x603ea648a763450b49f2c2865bbd9d49594c23c9e5ff8ae53905be8fadeint,
        0x83cb33627fafca484eea55f3ed3e53cd71569273276be4273e9744e83e0int,
        0x8ae0254f62995e149367320aa32b3275044ac79839f4008b2ebc57c4e36int,
    );
}

proof fn lemma_prime_236_base_1()
    requires
        pow(0x2int, 415727762731470nat) % 0xabaf8c6b094fd0f32c2ccabab864dbecd99144679c1adf804898fb2042bint == 0x8ae0254f62995e149367320aa32b3275044ac79839f4008b2ebc57c4e36int,
    ensures
        pow(0x2int, 117016962332813822191357596115nat) % 0xabaf8c6b094fd0f32c2ccabab864dbecd99144679c1adf804898fb2042bint == 0x19745ef76d601f918e154de96683253c37ed80fbf01ef81644d10462bd7int,
{
    powers::lemma_walk_eight(
        0x2int,
        0xabaf8c6b094fd0f32c2ccabab864dbecd99144679c1adf804898fb2042bint,
        415727762731470nat,
        0x8ae0254f62995e149367320aa32b3275044ac79839f4008b2ebc57c4e36int,
        (true, false, true, false, false, true, false, false),
        0x77a545aee6778b3540b8d04f689d1e580d4d609671bde4fb96d6e1c2424int,
        0x1d3a2bd56156546153f495e59c8eedae00984d23441bd58c80d887f0cfeint,
        0x11b8a152725ff5497da478350aa19b4f57f74d3443661db52819303f267int,
        0x87a1a708af6f6db13628dbb2cfb9a13f87ce11c0d7efdf799cc6d9d2d9int,
        0x681cea30777f864767ca5c72c2e0c9366d4bea0ed36db67f72e1b824700int,
        0x6346ba8fb280afe985e7767d58d2b2d993a8e1056b527bf67febc19ab7dint,
        0x66890395acbd229953540895de9c35dfd3b00c3391b3fbbeda237c04bbaint,
        0x246b0d995d0c971914cfb6d54b8f246af282bafd4da86c98e6560668218int,
    );
    powers::lemma_walk_eight(
        0x2int,
        0xabaf8c6b094fd0f32c2ccabab864dbecd99144679c1adf804898fb2042bint,
        106426307259256484nat,
        0x246b0d995d0c971914cfb6d54b8f246af282bafd4da86c98e6560668218int,
        (false, false, true, true, false, true, false, false),
        0x96131899c63d71007c8e92a4eff37266d2ee68854c1e56c38cb6cadc056int,
        0x1063eb9f7e399a72c51a14c8774493cfd6b71251d4d13448d8ad87df513int,
        0xa93f25bba885b9252329b137dc883cf54091cd537fef79da6849f6d345bint,
        0x3ce1360fd46fc4a88a6439bea6de5cd95a62bef6548f0278783955a2876int,
        0x89283d0d222956de5001ac765776b44cad63015b2232b0bda5fcd71230fint,
        0xbc3c3ed954169405598c5d0a8e9d96a8daddbbcc6376bebacb68e47120int,
        0xa35d8d8f64b75f6c4a1be3f7bfeb14dec55fd2156f8b898db65dac5c275int,
        0x80067ce1dc095d93cc102cf2a38d4e1a11b4217630d63182d30ef54641dint,
    );
    powers::lemma_walk_eight(
        0x2int,
        0xabaf8c6b094fd0f32c2ccabab864dbecd99144679c1adf804898fb2042bint,
        27245134658369659956nat,
        0x80067ce1dc095d93cc102cf2a38d4e1a11b4217630d63182d30ef54641dint,
        (false, true, true, false, false, true, false, true),
        0x1c53d340376af8cfca4f67d25d18d47b236324e1a764da948477e92628bint,
        0x6499eb5c7d237676f292ad621c97fd91e6774f7f140b6044588dc6c0b1dint,
        0x8020869b0a913f93aec77582682727fd398026d582cdb54e68fa8cfc38cint,
        0x48e88c4980b9201f5cfbef781abf1d4f828e86fb9659adff4b1310b0a79int,
        0x9e649a67a4dc4fcc3907d0adafafe3aed2883cebd206262a3f7c68f33dint,
        0x4b38fa2dbb1b7d5bf6b0705495f8749e3a48abb87dac0363caf7153f255int,
        0x7f7597cdd3c877340a980a10f28f7bd44170bf96fb6e9d8a7500735f18bint,
        0x9d8a7de9b52217aa780f6b630473a357fba89e98dcd89278b5a0b108673int,
    );
    powers::lemma_walk_eight(
        0x2int,
        0xabaf8c6b094fd0f32c2ccabab864dbecd99144679c1adf804898fb2042bint,
        6974754472542632948837nat,
        0x9d8a7de9b52217aa780f6b630473a357fba89e98dcd89278b5a0b108673int,
        (false, false, true, false, false, false, true, true),
        0x96d2c969627da713cad78c935f91c840b1e6a93152df5ef406bf417b7c4int,
        0x3854f63724c53aa594b9c9922f46592727c1bd3b106b9e50dd7e3a28215int,
        0x9318ee288e9756eff6e670b0ecca0cf5106fa7c006befaf94804342cf7eint,
        0x3463313141c76af212b3b22f8b613e2e28a9711187f217be91e300c269dint,
        0x5f232d211cad15e53e3a956ec029ae0c7d4a363f98c30c4217155b03e32int,
        0xfe964007ae604fff314f7b793d2966f50b5bc5568982c129202f37990aint,
        0x28db7db68c1382ebca9d97999fc91f2e7ec2f4dae1b50a890d0c98ceb3bint,
        0x720ad70938bd175b53e26efd80636e95cf3443d8a5836339203cd8ad881int,
    );
    powers::lemma_walk_eight(
        0x2int,
        0xabaf8c6b094fd0f32c2ccabab864dbecd99144679c1adf804898fb2042bint,
        1785537144970914034902307nat,
        0x720ad70938bd175b53e26efd80636e95cf3443d8a5836339203cd8ad881int,
        (false, false, false, true, false, false, false, true),
        0x8ec0ece8d1c70fa46ce9a84130fc7862194ca52ee39dbc9bccd849f1134int,
        0x984b9e157c3a6b1f500e1f6db2ff31a9fc102ddea06b1460a7c4c162fcint,
        0x191ab7bc343c628269193e1f3b3661f2fc43d86e3a3945eaa4ce0581c49int,
        0x70148c8c8fab25c89283af99e2d42bb5d598a2b3b545c1767544cd399aaint,
        0x6d18b4092d072cfb745aa6e3b53fcd7b510266a4fd1b331deac0331d450int,
        0x5e53a20049dc2fd1357d92bfa28d053694fa00741bc1e52de5063d93581int,
        0x9f254955df08c93c067baa8495de768e15726947b90bdcd4eacc89b7546int,
        0x294e98f067f27df25c8f920e20c4ea5ebdfb5516bf8e775c4e033f0503eint,
    );
    powers::lemma_walk_eight(
        0x2int,
        0xabaf8c6b094fd0f32c2ccabab864dbecd99144679c1adf804898fb2042bint,
        457097509112553992934990609nat,
        0x294e98f067f27df25c8f920e20c4ea5ebdfb5516bf8e775c4e033f0503eint,
        (true, true, false, true, false, false, true, true),
        0x67ce1d1c80fe37780fd186479d9fbc96c40ea65e8fa7cb70d1bc6eb2fa8int,
        0x5c1ad4f216d7c72355fd281b05b7c920f88c6aa03cb83455ca5cd2d44cfint,
        0xa1ac6b40e5cae5858f15b1990489ac87ae8963971fa5721264f97f12c02int,
        0xd3f3fcd02e66cee9457b1ebbe0134abf79ac175d02139487f0e630ea21int,
        0x14c97ecab69056698bf65a377fb2393a67dd9816da34dbe0179dcefa47bint,
        0x58495c6cbe1f4542979c800a596b7e3cad9056e18cefdd81b7269f013beint,
        0x3acf2096c14e1b7fca61f3eee671d3421087e6919bfb43a8ac6ca187d41int,
        0x19745ef76d601f918e154de96683253c37ed80fbf01ef81644d10462bd7int,
    );
}

proof fn lemma_prime_236_base_2()
    requires
        pow(0x2int, 117016962332813822191357596115nat) % 0xabaf8c6b094fd0f32c2ccabab864dbecd99144679c1adf804898fb2042bint == 0x19745ef76d601f918e154de96683253c37ed80fbf01ef81644d10462bd7int,
    ensures
        pow(0x2int, 981609426360740691344999861639072106nat) % 0xabaf8c6b094fd0f32c2ccabab864dbecd99144679c1adf804898fb2042bint == 0xa118eb0f9d8184bab59e8e45df736d65fba3c64f4aa855bc8921ac18308int,
{
    powers::lemma_walk_eight(
        0x2int,
        0xabaf8c6b094fd0f32c2ccabab864dbecd99144679c1adf804898fb2042bint,
        117016962332813822191357596115nat,
        0x19745ef76d601f918e154de96683253c37ed80fbf01ef81644d10462bd7int,
        (true, true, true, true, false, true, false, false),
        0x18a032b6dbdd0ffa50f8321ad648db97637a5b429266fc8dc93238518c3int,
        0x58168a9cc810950795f992994ff8ecceab43b9ae9c616d7df3da615edc5int,
        0x32ab2873918a7aecbfb6d6af28c203c819c0c0017539810a225c1ebc092int,
        0x327b0dfc6db9e6a5625a8cf945eba5c566a6c267735a886152c835a29c3int,
        0x5641d4e5de2cc434d8ff2a159299498cca60897ed388a0aef15ff0da0ceint,
        0x55ee202d2b055d37b42d41d71c452087956e4aed2b02bb73b7d4052f56fint,
        0x9823bc824ddf4238bf45872426c1302f752184c5056f87a8f42c1600555int,
        0x3b697d501b0714f8d317f10949e2b67188f4cafb4cccc75d9b98460108fint,
    );
    powers::lemma_walk_eight(
        0x2int,
        0xabaf8c6b094fd0f32c2ccabab864dbecd99144679c1adf804898fb2042bint,
        29956342357200338480987544605684nat,
        0x3b697d501b0714f8d317f10949e2b67188f4cafb4cccc75d9b98460108fint,
        (true, false, false, true, false, false, true, false),
        0x3380985bbb3964a6cc6fbfc5444ec2fb50c1af4cd9673da926edf837d0dint,
        0x52b2f1167be7a4b9fc1a2da3db30dd39977591d38cde11632591e04a443int,
        0x15ffe601f5b00c84e6b79ed19993fac9d4e536125b1eb5a8d2a9339d2bint,
        0x99016ae6d7a7f95a1e2c2c8154174bb97e560efde2921b4b187b3a2976eint,
        0x3a40cd496b38c85262acc65b5751cf807ec56bf6ee4146d56ab4a25e977int,
        0x650348bc16e94643c3355253b78e6752af906a3eb5bc54cf2993163f998int,
        0x955deee08c97abfb04f70d7ac170d444f78674df8f534264a84f7ac6bc5int,
        0x377735aedb37e55d19ff1c50169c5922f560053366812d8f0df5f653597int,
    );
    powers::lemma_walk_one(0x2int,
        0xabaf8c6b094fd0f32c2ccabab864dbecd99144679c1adf804898fb2042bint,
        7668823643443286651132811419055250nat,
        0x377735aedb37e55d19ff1c50169c5922f560053366812d8f0df5f653597int, true,
        0x8acc4a87344f44985b9ab5599431a6b28010d329ab6b431cc39822a21b5int);
    powers::lemma_walk_one(0x2int,
        0xabaf8c6b094fd0f32c2ccabab864dbecd99144679c1adf804898fb2042bint,
        15337647286886573302265622838110501nat,
        0x8acc4a87344f44985b9ab5599431a6b28010d329ab6b431cc39822a21b5int, true,
        0x5c23c73e3442a30395230ce026bfb02114263a1ee539024c0bb8ec877cfint);
    powers::lemma_walk_one(0x2int,
        0xabaf8c6b094fd0f32c2ccabab864dbecd99144679c1adf804898fb2042bint,
        30675294573773146604531245676221003nat,
        0x5c23c73e3442a30395230ce026bfb02114263a1ee539024c0bb8ec877cfint, false,
        0x497b1976e2c5196437c64570ab1267dc3ee2476cb1f39398a436a2a1147int);
    powers::lemma_walk_one(0x2int,
        0xabaf8c6b094fd0f32c2ccabab864dbecd99144679c1adf804898fb2042bint,
        61350589147546293209062491352442006nat,
        0x497b1976e2c5196437c64570ab1267dc3ee2476cb1f39398a436a2a1147int, true,
        0x67c3655c3d4c03a9e39cad8d9e6fc7d03deac383138d118a925cfcc81a0int);
    powers::lemma_walk_one(0x2int,
        0xabaf8c6b094fd0f32c2ccabab864dbecd99144679c1adf804898fb2042bint,
        122701178295092586418124982704884013nat,
        0x67c3655c3d4c03a9e39cad8d9e6fc7d03deac383138d118a925cfcc81a0int, false,
        0x645b08dfbcd1d8f70ba37aa8fe62a64990262ab94952a38617885b46dc7int);
    powers::lemma_walk_one(0x2int,
        0xabaf8c6b094fd0f32c2ccabab864dbecd99144679c1adf804898fb2042bint,
        245402356590185172836249965409768026nat,
        0x645b08dfbcd1d8f70ba37aa8fe62a64990262ab94952a38617885b46dc7int, true,
        0x3b4de569432f428a4d9321e098af4893fe8cf220fcc35aea5991e93fac5int);
    powers::lemma_walk_one(0x2int,
        0xabaf8c6b094fd0f32c2ccabab864dbecd99144679c1adf804898fb2042bint,
        490804713180370345672499930819536053nat,
        0x3b4de569432f428a4d9321e098af4893fe8cf220fcc35aea5991e93fac5int, false,
        0xa118eb0f9d8184bab59e8e45df736d65fba3c64f4aa855bc8921ac18308int);
}

/// The witness for the 236-bit prime to the power of the cofactor.
proof fn lemma_prime_236_base()
    ensures
        pow(0x2int, 981609426360740691344999861639072106nat) % 0xabaf8c6b094fd0f32c2ccabab864dbecd99144679c1adf804898fb2042bint == 0xa118eb0f9d8184bab59e8e45df736d65fba3c64f4aa855bc8921ac18308int,
{
    lemma_prime_236_base_0();
    lemma_prime_236_base_1();
    lemma_prime_236_base_2();
}

proof fn lemma_prime_236_order_0()
    ensures
        pow(0xa118eb0f9d8184bab59e8e45df736d65fba3c64f4aa855bc8921ac18308int,
            511239965832962nat) % 0xabaf8c6b094fd0f32c2ccabab864dbecd99144679c1adf804898fb2042bint == 0x2c1ad7e1850542ce850cfef0c518fc6cf35c902715ad4cd1bff9d07c107int,
{
    lemma_pow1(0xa118eb0f9d8184bab59e8e45df736d65fba3c64f4aa855bc8921ac18308int);
    powers::lemma_walk_eight(
        0xa118eb0f9d8184bab59e8e45df736d65fba3c64f4aa855bc8921ac18308int,
        0xabaf8c6b094fd0f32c2ccabab864dbecd99144679c1adf804898fb2042bint,
        1nat,
        0xa118eb0f9d8184bab59e8e45df736d65fba3c64f4aa855bc8921ac18308int,
        (true, true, false, true, false, false, false, false),
        0x8b4cf1d206f83670a1bd65b3b5531c0696ae852450b960b7180d25e9d0eint,
        0x1c285ecdff9df456e8a2d1eda35f795e719047659a5285709f272407023int,
        0x58dc130308dd4efe1f821ac60fa137b9ef44bdb398e9534e07e281a56eint,
        0x655b44735bea9793d26cfbf9ca08b390404b9898b7cf1e07232912a8115int,
        0x7d85cfde4f00836c342a258930be7dfa0b10a763f916e2724f0cfaab568int,
        0x1a28daf693cccc624e0bed7ddb8357c1a09d9fbb2c782a4021cd0ebd287int,
        0x96b3210909a8c8117c615e847ef91d9bb7579d4c7da760f5028d0d749eeint,
        0x2dbabdb7fd3ab0e5cff3421d4262010e8b6108db546c1226ba5df25b038int,
    );
    powers::lemma_walk_eight(
        0xa118eb0f9d8184bab59e8e45df736d65fba3c64f4aa855bc8921ac18308int,
        0xabaf8c6b094fd0f32c2ccabab864dbecd99144679c1adf804898fb2042bint,
        464nat,
        0x2dbabdb7fd3ab0e5cff3421d4262010e8b6108db546c1226ba5df25b038int,
        (true, true, true, true, true, false, false, false),
        0x2639a6ecb2839b20f25da83ede3c574b0807b352e7cdd33d4a86415a61dint,
        0x8c4d6986c02ced31ce7b901472c22d56dc72f9e4e6b86b514b041922c02int,
        0x23d6a1da936a6f2e2c3d154bbd725a5227612211b8fad6a6ae7b8c04b12int,
        0x42febfad9ff7e99106a420f115b3593a12dd9d56589eb9a41d337a7d765int,
        0x66e62422dac05613028954ef8af6a89794fe4cb8fc39a01a67918ac4463int,
        0x894eb11f6f65cb412df97787a79fdecac2b4d5cdb7c3af60da3a9e4ec3aint,
        0x73e2b308c4d77136eb35c70ef4781525bbb4035cd27c88fb02700bbe077int,
        0x574efbe0432d1bc1463bd79851e1159e6493f1f88ab6e3f87cc00b870f2int,
    );
    powers::lemma_walk_eight(
        0xa118eb0f9d8184bab59e8e45df736d65fba3c64f4aa855bc8921ac18308int,
        0xabaf8c6b094fd0f32c2ccabab864dbecd99144679c1adf804898fb2042bint,
        119032nat,
        0x574efbe0432d1bc1463bd79851e1159e6493f1f88ab6e3f87cc00b870f2int,
        (false, true, false, true, false, true, false, false),
        0xa48ce48fa3f1e6756db9b4c730858ecadac6628919b4ae5b86a2d798ccbint,
        0x23f1ac0147de32b6d27b265ee0c64efc7feafb559ea73d02b864e47663dint,
        0xa4221117ec614844a3207f77b9b3be05f68d922de37afd7a54e101a8de5int,
        0x8d71be0bb741e4d19d20f2a0efcabd38cb0e8c70cb88838738e8b98e6dint,
        0x7e3eca5495a5e3c2212eb8688487e79bc6c042389f01a1b706748ef3332int,
        0x63b8ebd93c11954871c32fc2e372d743a77edaff8020cfdc80700af7c9bint,
        0x6997c13781fe17841280a22b659c00834a959d6138ec9d3f2821d9d2c64int,
        0x74c104ec735378a8d431c6416d23a65b4d32ba1fe7a5b66b328f7e86abbint,
    );
    powers::lemma_walk_eight(
        0xa118eb0f9d8184bab59e8e45df736d65fba3c64f4aa855bc8921ac18308int,
        0xabaf8c6b094fd0f32c2ccabab864dbecd99144679c1adf804898fb2042bint,
        30472276nat,
        0x74c104ec735378a8d431c6416d23a65b4d32ba1fe7a5b66b328f7e86abbint,
        (true, false, false, false, true, true, true, false),
        0x45deae5d1733e9e844d8f1737a466b03c3269c73dc12c13607bd020f10cint,
        0x6710d0b65bc78428d08d3841ce3ace388c1477d55df1ee64b52783b69feint,
        0x5109b0515e8fba2c205ecedd1416f736fecc816926b9a887bbbc62ff635int,
        0x3ebd9d5d55ca7513761120e402f7b2b4d5939bad7c4b6e0a39953e4a3e9int,
        0x3917f5d4e24b10f3b58aaacad3399baa5982d0d3819b4be1d9ed76dff91int,
        0x4d92e60734b92151fa93fb30fcc01c2ec6c0908308f274a4f83c793714dint,
        0x8c4e4b1bd51e029a05cebe12fcd639608ca9d69136c13fec807f0df59f1int,
        0x9a26dab0ae6058921ce8ffa267c0979fa078023d696f6e94053fe1c9183int,
    );
    powers::lemma_walk_eight(
        0xa118eb0f9d8184bab59e8e45df736d65fba3c64f4aa855bc8921ac18308int,
        0xabaf8c6b094fd0f32c2ccabab864dbecd99144679c1adf804898fb2042bint,
        7800902798nat,
        0x9a26dab0ae6058921ce8ffa267c0979fa078023d696f6e94053fe1c9183int,
        (true, true, true, true, false, true, true, true),
        0xa3dfd549c46392b28ec4e53be7d094e059fa1b1a6e42df45b515096160int,
        0xa256c07ca7201adeaa71af560709965872f70b47bb573b9afc65c68e8f1int,
        0xc21b19452b898884e91a01ccf71d26c0c00f96f6de89e8a751442eee1bint,
        0x88399345eba7ddb31ce1dbc66032b1c2f14a87c26500aca741141a040baint,
        0x1521b4139d59dd46e5565b9db568908af5f45f9eaeef2ebe1a7d5d9f911int,
        0x814b321561d7d0ed77172c7837bf54c460708ffbd230922f89ae1fba2a2int,
        0x4145cdc672cce1babe03b600ef34e5cc90c4a8f76dafbaa7e74f4d58d14int,
        0x5a7ae6b65105339b61c12d319c3c1057b4b930f763c5b98b7d5373db59cint,
    );
    powers::lemma_walk_eight(
        0xa118eb0f9d8184bab59e8e45df736d65fba3c64f4aa855bc8921ac18308int,
        0xabaf8c6b094fd0f32c2ccabab864dbecd99144679c1adf804898fb2042bint,
        1997031116535nat,
        0x5a7ae6b65105339b61c12d319c3c1057b4b930f763c5b98b7d5373db59cint,
        (false, false, false, false, false, false, true, false),
        0x4c37276d9691be7c056b2f28a7d7fc2d5573e792c34a16d50a712730344int,
        0x1275dddf30f6f5b353ed555df41b1d14ab2c410f2cf2d59ff3b3f828283int,
        0x4909b9ea2ec9a7b910cf3eb8bafb40f4867d33792b4378132e9998d4c8aint,
        0x135ca7a6083f56b92b0f3166b6afb9183c66bd7e221f4124a64ffc7b79int,
        0x937e3ad229d4b3d482feb386306ef59a45880b0eb66769396237b6737eaint,
        0x826cb454bce2819745430223de1b84d36322a6db64e1542fc42e29adac0int,
        0x5bc94b0f9f61f6290a8e318de8176e243bf0ac26d0870c5dc8fc7072899int,
        0x2c1ad7e1850542ce850cfef0c518fc6cf35c902715ad4cd1bff9d07c107int,
    );
}

proof fn lemma_prime_236_order_1()
    requires
        pow(0xa118eb0f9d8184bab59e8e45df736d65fba3c64f4aa855bc8921ac18308int,
            511239965832962nat) % 0xabaf8c6b094fd0f32c2ccabab864dbecd99144679c1adf804898fb2042bint == 0x2c1ad7e1850542ce850cfef0c518fc6cf35c902715ad4cd1bff9d07c107int,
    ensures
        pow(0xa118eb0f9d8184bab59e8e45df736d65fba3c64f4aa855bc8921ac18308int,
            143901257476389746232511227691nat) % 0xabaf8c6b094fd0f32c2ccabab864dbecd99144679c1adf804898fb2042bint == 0x807d90dbedcf9cbe1f6bbb8a98036e5a745f2dbbf2f461b0ac3cdae2a48int,
{
    powers::lemma_walk_eight(
        0xa118eb0f9d8184bab59e8e45df736d65fba3c64f4aa855bc8921ac18308int,
        0xabaf8c6b094fd0f32c2ccabab864dbecd99144679c1adf804898fb2042bint,
        511239965832962nat,
        0x2c1ad7e1850542ce850cfef0c518fc6cf35c902715ad4cd1bff9d07c107int,
        (true, false, true, true, false, true, false, false),
        0xdb193a211c8411a640a2dc782009608f9d15f6db4a3705061675dcae21int,
        0x8cb0df9f9bd995ebdbd0b2f81b2b02679640fc30253f82212897489dfa2int,
        0x41a0bd2693151d443b62e7c331b15e77c8072326dd16e247efb7bfbbe39int,
        0x8c5a87bb28f66d2845b1dbad230965d7c341f1338e57e9e0e55bdae2de3int,
        0x3c9ba986d51528485eba12677a53fb2e15dbf3be3898cd080468f3081ceint,
        0x22fb53421c84439ebc0659b177cb219085ba041bffb4b250c37468e8cdbint,
        0x3adf545ec73b51fedeb89bde091359c2417c7ff0a2a6cf0a26dc49f2e97int,
        0x1d5ea61f2cbe225b538f19004456a066c711d2b2922dc61a9db9402d113int,
    );
    powers::lemma_walk_eight(
        0xa118eb0f9d8184bab59e8e45df736d65fba3c64f4aa855bc8921ac18308int,
        0xabaf8c6b094fd0f32c2ccabab864dbecd99144679c1adf804898fb2042bint,
        130877431253238452nat,
        0x1d5ea61f2cbe225b538f19004456a066c711d2b2922dc61a9db9402d113int,
        (false, false, true, false, true, true, true, true),
        0x8085b9363e04ff6f91ca4f7359073735fc00b5b247abd03f5e7c6be0adaint,
        0x6fa4d8eabfdcf11a306015cf431ce0f5ca2d1d066e00531ca107ef9c104int,
        0xc333e695c557dea1833a6d4c2ebd8e9becd7e01880c70229f73ef0ee6fint,
        0x7c1736c3918a05259e02cfdbc326c5aee5ae2ad0dcca4f58ae46f24fb3cint,
        0x42a137b599d4ccaff49da9f7f91a3595e00e3c24721375b63d046801884int,
        0xa2fd1fa64ee822268ee8214a7640ee860028ccf5af3de686026eb2aec62int,
        0xe0b5ae692be86abe4f0763d240a8c16e14af973a0442bf342a9877f25fint,
        0x13d8e5901f6c8ba1bab7a879e53b73cdeefe2764865bd0c251e5ea3c736int,
    );
    powers::lemma_walk_eight(
        0xa118eb0f9d8184bab59e8e45df736d65fba3c64f4aa855bc8921ac18308int,
        0xabaf8c6b094fd0f32c2ccabab864dbecd99144679c1adf804898fb2042bint,
        33504622400829043759nat,
        0x13d8e5901f6c8ba1bab7a879e53b73cdeefe2764865bd0c251e5ea3c736int,
        (false, false, true, false, false, true, true, false),
        0x5544d14241e0efc6ed836c880257df8dbd63fd0ba6502c7b66617d9db60int,
        0x2d276a198937bd057addbbc7a952e6195bdd1515b34a80a614de2f38034int,
        0x4dbda4b7be7c597933d2c2e02ed65b14f8b8beb749fb71e27a01b85eac5int,
        0x77a9083eb4f4dc2edd89f62f8727a4dae6f8febd5f7fb1b4f019b79ab95int,
        0x112745b5b0ac7355ea2834b6a1f04b75b62f6ce591b21e384cae733b0e9int,
        0xdc15c24c992029e8c4e6786e220ee4015fd80b154bd30e5036f1c04e50int,
        0x7879a5f59674f0f8baee443d58990af1d4b8284319cc263bb828de171d2int,
        0x93f5ebfe0513c5946b27e33a8f8f0c1bb4b0b37aa8d2963757fc6e501b8int,
    );
    powers::lemma_walk_eight(
        0xa118eb0f9d8184bab59e8e45df736d65fba3c64f4aa855bc8921ac18308int,
        0xabaf8c6b094fd0f32c2ccabab864dbecd99144679c1adf804898fb2042bint,
        8577183334612235202342nat,
        0x93f5ebfe0513c5946b27e33a8f8f0c1bb4b0b37aa8d2963757fc6e501b8int,
        (true, true, true, true, false, false, false, false),
        0x1b38053a9c01248edb08b3a320656956ef9d30e027ff2e771a3ad53c1a6int,
        0x894e47a3ad01834d18fe42e9715023a1e148048095ef7e52e8cdc825f73int,
        0x87eb4cb255a29a8e7c5a4e5083a911c9193628ec41e6c414f36ebcf160bint,
        0x1647086a7fed5d421930ecffc127b37ccc7e8dff61932f69b557cd2d278int,
        0xccae0b69a05f5ce20b55c81b50394bdfe023d0428cb66710b71d1c8354int,
        0x5ab97eaa58158e091556f2ce0cf87d59cd724f6ba26f4922eb6d418ed55int,
        0x576f3c4c28aec4e2460338906ab9ac647159bbe6483e87e60682c6b6c3int,
        0xa26416b484a38c5754ce27f60fb4cea2629e2d5714467911e7350832f6cint,
    );
    powers::lemma_walk_eight(
        0xa118eb0f9d8184bab59e8e45df736d65fba3c64f4aa855bc8921ac18308int,
        0xabaf8c6b094fd0f32c2ccabab864dbecd99144679c1adf804898fb2042bint,
        2195758933660732211799792nat,
        0xa26416b484a38c5754ce27f60fb4cea2629e2d5714467911e7350832f6cint,
        (true, true, true, false, false, true, true, true),
        0x25f1bebb0dd9b80cc0aa701df7c2f76d1e3076919f7c7b0f234463399d8int,
        0xa879d94320d3c13283e150de5974f6f506b02c944574488f3763b3a604bint,
        0x64cac31c919b935f1547c173a2ecab65db86cdc408a49da5b2070910130int,
        0xa3f671f44ffffcca283fe63d27efa101bf0c5b32fc4037fad2dd847c3e5int,
        0x1f1faa2ad73d39374e4b9a14393289259e73ff1d149fd4c38a014fc8e2cint,
        0x98b79ecec4294ccd223ef062fb80e95a357d0c0ad2128f3807443f2945cint,
        0x42a75d74dd5854e48c5bc6f3120861bfa26cdc4b107213726e674ef60d3int,
        0x71b521f7b180d00e938ba880945963d153c59e511ca39a951bbbe6e0b3aint,
    );
    powers::lemma_walk_eight(
        0xa118eb0f9d8184bab59e8e45df736d65fba3c64f4aa855bc8921ac18308int,
        0xabaf8c6b094fd0f32c2ccabab864dbecd99144679c1adf804898fb2042bint,
        562114287017147446220746983nat,
        0x71b521f7b180d00e938ba880945963d153c59e511ca39a951bbbe6e0b3aint,
        (false, false, true, false, true, false, true, true),
        0x452787058f602bea144998ad11ac27816a18e6dbb18035d5a8e033003a6int,
        0xa4158e4956f643d130fda6719c0cdddd354fcc534d071877fd1882a4b61int,
        0x1eef041bbbe4684ed28066981df940860160a7f2a67079c025a8bcc97eeint,
        0x47aff62216702f36f429db368b159192106d9e80a240d5a69216f1286ccint,
        0x3640de1fdecfb7b133784f9091e75f84e8a6fe8cff6469f06a72a559eacint,
        0x2f1aad0673654ce104a16d68c2d269ca9db6af558e83ddb81b12f05e607int,
        0xaa8753e2e48c553a6ee84837a7afaa12e90be701a6d6ebc59a010d5907cint,
        0x807d90dbedcf9cbe1f6bbb8a98036e5a745f2dbbf2f461b0ac3cdae2a48int,
    );
}

proof fn lemma_prime_236_order_2()
    requires
        pow(0xa118eb0f9d8184bab59e8e45df736d65fba3c64f4aa855bc8921ac18308int,
            143901257476389746232511227691nat) % 0xabaf8c6b094fd0f32c2ccabab864dbecd99144679c1adf804898fb2042bint == 0x807d90dbedcf9cbe1f6bbb8a98036e5a745f2dbbf2f461b0ac3cdae2a48int,
    ensures
        pow(0xa118eb0f9d8184bab59e8e45df736d65fba3c64f4aa855bc8921ac18308int,
            75445702479781427272750846543864801nat) % 0xabaf8c6b094fd0f32c2ccabab864dbecd99144679c1adf804898fb2042bint == 0x1int,
{
    powers::lemma_walk_eight(
        0xa118eb0f9d8184bab59e8e45df736d65fba3c64f4aa855bc8921ac18308int,
        0xabaf8c6b094fd0f32c2ccabab864dbecd99144679c1adf804898fb2042bint,
        143901257476389746232511227691nat,
        0x807d90dbedcf9cbe1f6bbb8a98036e5a745f2dbbf2f461b0ac3cdae2a48int,
        (false, true, true, false, false, true, false, false),
        0x8c36d937b7fb8d95297ae3f389bd5be20a467de384373d8a4fdd91c9628int,
        0x5eb4cba33076bea583df5bfa75196061584655185920758313975605f60int,
        0x231fd69125647c9c3524a011dcefd665c1ec24fd92619a6b2314f466802int,
        0x5afd89e3f5f0e9cf0d27a20fd9880b987003ab470ec2c75450aefb7672eint,
        0x29dbd3ecd3042d5e90b82161bf909eb5bb0722739ab4fb5798e80b6a3a7int,
        0x6df099dba2f52c4847641c2fdfc3bf113296c14ff325005e0b844d7cf59int,
        0x430f5a0aceb9a83e8cecc8696a4a796abd5746ff3b4aad08f17e18a89f2int,
        0x89f866642659d689db1147413bde07bb95836b8f48acf66afeb0a783d37int,
    );
    powers::lemma_walk_eight(
        0xa118eb0f9d8184bab59e8e45df736d65fba3c64f4aa855bc8921ac18308int,
        0xabaf8c6b094fd0f32c2ccabab864dbecd99144679c1adf804898fb2042bint,
        36838721913955775035522874288996nat,
        0x89f866642659d689db1147413bde07bb95836b8f48acf66afeb0a783d37int,
        (false, true, true, true, true, true, false, false),
        0x4cec2728adecc3dac46ad3cda7a0378037a6d6430311d36321168174082int,
        0x593999941d53fa862093b8c1312ed5dd5da4c9cfee977a895d43bdb4496int,
        0xa7f2a89537e29ecc3ef90f60dbb855ebdbd8184e6922ec0915f7e3b8486int,
        0x3140a2a0e25c94e183f329a89f21ddd6b15fb46c014a58949715bdaf083int,
        0x1dec702ff514def393a13de3791001b6fec476630ba72aca68d010bb15aint,
        0x65daae495df8bf03f796cd0fb17417360decc828634efa5843fcb38975int,
        0x9d6ef5f5f52fef9387c54ea455f297eab23cc8947f1566a17c9ec5cccafint,
        0x5b12fd89764032e8cf229dcee5c41333b78d93fcce1b082fd78b6aa59d9int,
    );
    powers::lemma_walk_one(0xa118eb0f9d8184bab59e8e45df736d65fba3c64f4aa855bc8921ac18308int,
        0xabaf8c6b094fd0f32c2ccabab864dbecd99144679c1adf804898fb2042bint,
        9430712809972678409093855817983100nat,
        0x5b12fd89764032e8cf229dcee5c41333b78d93fcce1b082fd78b6aa59d9int, false,
        0xd5132c9e69001a4c28ac6027327fd2ad76e94ff28a7be4fb3616a5677aint);
    powers::lemma_walk_one(0xa118eb0f9d8184bab59e8e45df736d65fba3c64f4aa855bc8921ac18308int,
        0xabaf8c6b094fd0f32c2ccabab864dbecd99144679c1adf804898fb2042bint,
        18861425619945356818187711635966200nat,
        0xd5132c9e69001a4c28ac6027327fd2ad76e94ff28a7be4fb3616a5677aint, false,
        0x1169c6da3a43d317a0dd55f1163954c1dddae49eb6508bedb8c8bbe36c5int);
    powers::lemma_walk_one(0xa118eb0f9d8184bab59e8e45df736d65fba3c64f4aa855bc8921ac18308int,
        0xabaf8c6b094fd0f32c2ccabab864dbecd99144679c1adf804898fb2042bint,
        37722851239890713636375423271932400nat,
        0x1169c6da3a43d317a0dd55f1163954c1dddae49eb6508bedb8c8bbe36c5int, true, 0x1int);
}

/// The remaining power is one.
proof fn lemma_prime_236_order()
    ensures
        pow(0xa118eb0f9d8184bab59e8e45df736d65fba3c64f4aa855bc8921ac18308int,
            75445702479781427272750846543864801nat) % 0xabaf8c6b094fd0f32c2ccabab864dbecd99144679c1adf804898fb2042bint == 0x1int,
{
    lemma_prime_236_order_0();
    lemma_prime_236_order_1();
    lemma_prime_236_order_2();
}

/// The 236-bit prime of the chain.
proof fn lemma_prime_236()
    ensures
        primes::is_prime(74058212732561358302231226437062788676166966415465897661863160754340907int),
{
    lemma_prime_116();
    lemma_prime_236_base();
    lemma_prime_236_order();
    powers::lemma_compose(2,
        74058212732561358302231226437062788676166966415465897661863160754340907int,
        981609426360740691344999861639072106nat, 75445702479781427272750846543864801nat,
        0xa118eb0f9d8184bab59e8e45df736d65fba3c64f4aa855bc8921ac18308int, 1);
    powers::lemma_less_one(2,
        74058212732561358302231226437062788676166966415465897661863160754340907int,
        981609426360740691344999861639072106nat,
        0xa118eb0f9d8184bab59e8e45df736d65fba3c64f4aa855bc8921ac18308int,
        0xa35a14fb1452ddd0fca6eef50ac9bd9a369cab894104fc366d4fa595e38int);
    primes::lemma_pocklington(74058212732561358302231226437062788676166966415465897661863160754340907int, 75445702479781427272750846543864801int, 981609426360740691344999861639072106nat, 2, 0xa35a14fb1452ddd0fca6eef50ac9bd9a369cab894104fc366d4fa595e38int);
}

/// The curve constant to half the power of the cofactor.
proof fn lemma_curve_constant_base()
    ensures
        pow(0x52036cee2b6ffe738cc740797779e89800700a4d4141d8ab75eb4dca135978a3int,
            390882nat) % 0x7fffffffffffffffffffffffffffffffffffffffffffffffffffffffffffffedint
            == 0x39594c88ef13f78c58fa420556dc156b33250156d89d6028b20fa90adb16775bint,
{
    lemma_pow1(0x52036cee2b6ffe738cc740797779e89800700a4d4141d8ab75eb4dca135978a3int);
    powers::lemma_walk_eight(
        0x52036cee2b6ffe738cc740797779e89800700a4d4141d8ab75eb4dca135978a3int,
        0x7fffffffffffffffffffffffffffffffffffffffffffffffffffffffffffffedint,
        1nat,
        0x52036cee2b6ffe738cc740797779e89800700a4d4141d8ab75eb4dca135978a3int,
        (false, true, true, true, true, true, false, true),
        0x7d6f8d574d4c1f28666b5422418f201bd37e5ec732a1caf01d83f63e6ba03e78int,
        0x57f04826abc5b63c73671433f356eeb9ceae2442337a61c67d9deb5c3344e5abint,
        0x4bf816b98c9180d4057dc73da9c5a553bfc999fcfbc91f35aba36c4ae1358bcint,
        0x5b7f535bbbf50435f09707f540947e6d277ab78cb223317249dc01139ea1311bint,
        0xa2eb5737202346ae12ecd7e0ccf9ce963d14ade0bb59ca7421994cac144d4e4int,
        0x180800ca8e9589c8e3a4910b5af2a1a6f2cf83bf6b9d9961c5a70e0293b80db2int,
        0x29ffcb87d1fc1a2c120b5d4631321fb58ad66c52b1e9752ed538438667fc4423int,
        0x6b25dbbe0397dd75f4e77c99b109b6f972b8dce0593fcffa721a6c7995b5da46int,
    );
    powers::lemma_walk_eight(
        0x52036cee2b6ffe738cc740797779e89800700a4d4141d8ab75eb4dca135978a3int,
        0x7fffffffffffffffffffffffffffffffffffffffffffffffffffffffffffffedint,
        381nat,
        0x6b25dbbe0397dd75f4e77c99b109b6f972b8dce0593fcffa721a6c7995b5da46int,
        (true, false, true, true, true, false, false, false),
        0x3ba4dc4e2c174ecf769a7210cd37927902ad09fe3f71972baf9b82a3a840beb9int,
        0x21d34e6e596e1bb49bc2130930ba7d8edfd76566ef0c75b907dd09d2263723eeint,
        0x35ac43f96853d28cd52f01def93f6945a696510b60ab9dd71ab952eb70d19394int,
        0x61eaeecf3ad3eeb5d215f0bb2a1a9f12c702904b6e773702fab5e5dff2974388int,
        0x7988b686078df2679ec1d7c07735052e19b64a61c0c1d1e40f5ca5fbd0b93a48int,
        0x4bbe03a81275f57f1046322c19d2fd41a765860be5d04009011e353d66d40486int,
        0xd59c92bfd2f57c78318801a34d7d680794b29539146da0b9c9cba7c4fe2cab7int,
        0x7a2e5468bb23587536ec8be1659964799c12126cffd1066006afdec95c178591int,
    );
    powers::lemma_walk_one(0x52036cee2b6ffe738cc740797779e89800700a4d4141d8ab75eb4dca135978a3int,
        0x7fffffffffffffffffffffffffffffffffffffffffffffffffffffffffffffedint, 97720nat,
        0x7a2e5468bb23587536ec8be1659964799c12126cffd1066006afdec95c178591int, true,
        0x69d0e5195e2100d2a2187c036e1377e727382f82424b1fb989a8d23e52af190dint);
    powers::lemma_walk_one(0x52036cee2b6ffe738cc740797779e89800700a4d4141d8ab75eb4dca135978a3int,
        0x7fffffffffffffffffffffffffffffffffffffffffffffffffffffffffffffedint, 195441nat,
        0x69d0e5195e2100d2a2187c036e1377e727382f82424b1fb989a8d23e52af190dint, false,
        0x39594c88ef13f78c58fa420556dc156b33250156d89d6028b20fa90adb16775bint);
}

proof fn lemma_curve_constant_half_0()
    ensures
        pow(0x39594c88ef13f78c58fa420556dc156b33250156d89d6028b20fa90adb16775bint,
            377540926902943nat) % 0x7fffffffffffffffffffffffffffffffffffffffffffffffffffffffffffffedint == 0x7ccc6f1488d66db4f6a34fe43899dd186ab4eee640a9f337a7d593f9c0995a1bint,
{
    lemma_pow1(0x39594c88ef13f78c58fa420556dc156b33250156d89d6028b20fa90adb16775bint);
    powers::lemma_walk_eight(
        0x39594c88ef13f78c58fa420556dc156b33250156d89d6028b20fa90adb16775bint,
        0x7fffffffffffffffffffffffffffffffffffffffffffffffffffffffffffffedint,
        1nat,
        0x39594c88ef13f78c58fa420556dc156b33250156d89d6028b20fa90adb16775bint,
        (false, true, false, true, false, true, true, true),
        0x4a0757a58983a59e9f2500136f5e9ed11cb2adffe609d5869dc1498972a2fd72int,
        0x447fe5a256544431c16ab398d97954527cb7e5679d2dfd0d51b1c109bf7bb316int,
        0x1f283d4bfa1f1c5b42026d31b44eb341d7d2ad11ab32a5c1c22f241b71f7e78bint,
        0x5b1dac3c908cb54deb178c2d09597d823050d748539ae115fedb3d537c8e0b27int,
        0x18e8f5a8619c02182a10ed6fd29a7bdff49b70d96b7704381a6018c38627951bint,
        0x54ed6255a39f7b548648981872596001820b2ae117beacc4800696d893a65d01int,
        0x3e7610fe6a5416064663abc88343b4f29f9bcf99ff17142a3a1c7da1f719f80int,
        0x7ab2cbd560738e3c6b3e17102613cff974012bd26b0d236f79ceafb261957f21int,
    );
    powers::lemma_walk_eight(
        0x39594c88ef13f78c58fa420556dc156b33250156d89d6028b20fa90adb16775bint,
        0x7fffffffffffffffffffffffffffffffffffffffffffffffffffffffffffffedint,
        343nat,
        0x7ab2cbd560738e3c6b3e17102613cff974012bd26b0d236f79ceafb261957f21int,
        (false, true, false, true, true, true, true, true),
        0x4eccddc0b62606cf09872ba1021f49126d369d7dc3ecec6afdb7b38388231995int,
        0xb17978f09f89230a34049a76665d85476ca28fd01412c12917686196d2672fbint,
        0x3494e7eba245d9dae25f52d4044462344c21d544cdfa37efd560d5a42f400380int,
        0x2f47d2d1b60765e88f50d48aac20b012cd6dd268c0c3f192e359e814e286b469int,
        0x552a7e1606e535cf72a15a7ec1cc05ff6ea0e75490698eb8a4561c9b598cec98int,
        0x62c671cc9db6b54f92687a6983a98e92b046e91dd7cc96df9f6b622d08eec7a7int,
        0x59ccf4de1183178be583fa3c7b0e564ed5e4cd208add78caa5333acc8c1df8eeint,
        0xdcf937c71308aae6ef4108a497148f332c8f90e1cf9908228a8b8d958dcb41eint,
    );
    powers::lemma_walk_eight(
        0x39594c88ef13f78c58fa420556dc156b33250156d89d6028b20fa90adb16775bint,
        0x7fffffffffffffffffffffffffffffffffffffffffffffffffffffffffffffedint,
        87903nat,
        0xdcf937c71308aae6ef4108a497148f332c8f90e1cf9908228a8b8d958dcb41eint,
        (false, false, false, true, true, false, false, false),
        0x8f529ee0304823547f92c711184894fe3697a518bf068f739f54acba4cc788bint,
        0x20a33603d9e9ebaaa50c4bacea17db199d7e3a22f615890569d50fc4bd620417int,
        0x69dd7d6fbdd643280c9c1648dd968e291e55599a862c859e28e990e150864028int,
        0x6310c26fbe7a62f788aae21064e581fbba490d2b53622b3f2505858f06bbfee2int,
        0x1661c06127da28fe98fcf0b104ff426eed19fef233e1690d234a07baa1a01b97int,
        0x47e5e868e1dd635e598107833b78e4b71673f2d3260ee9a3b4dd7ee6d5bf9d9bint,
        0x179d95f574ee9337d37c19546506224ca7a40bc0c8b97abaec81d97f3d4ad1b4int,
        0x72f449d72238336008374506de3b8fb38e9e3145f30ecf5f9f85a591b928f7e5int,
    );
    powers::lemma_walk_eight(
        0x39594c88ef13f78c58fa420556dc156b33250156d89d6028b20fa90adb16775bint,
        0x7fffffffffffffffffffffffffffffffffffffffffffffffffffffffffffffedint,
        22503192nat,
        0x72f449d72238336008374506de3b8fb38e9e3145f30ecf5f9f85a591b928f7e5int,
        (true, true, false, true, false, true, true, false),
        0x7f80ff9ee4bf41d5aa39588311099c6f4c72fe0fd47b71cca7ac631d82371eaint,
        0x1fa51211e899f4d243aaf7c05ca3e4dc03ac3693a7528e42e7cbe0f0f82bb50eint,
        0x7b2d042724d6047c3c0b55223cb9a15cd843eb3afdc5fc275a7c28ab810f117dint,
        0x5d5b2fd1854a1311bd5fe2a55a8b1a759b865500e8a59812b2ffb9264d9f5684int,
        0x4cf7443e0b01e701b5780cc3424d0ad1cf5f457a90c7ba79853826d15c7e66e3int,
        0x1c82a161ad4580b8bf06ce5be06626181f0d4b387860ced155f19d4e112c2992int,
        0x3b1e5d89425410058f100db841f32c1e87a485cdd9237c3700d556060428e66dint,
        0x17a00a64fe37ec85581230d1e561b87dd8a1ea7ee66c9d2c11ba1b63deb59f0cint,
    );
    powers::lemma_walk_eight(
        0x39594c88ef13f78c58fa420556dc156b33250156d89d6028b20fa90adb16775bint,
        0x7fffffffffffffffffffffffffffffffffffffffffffffffffffffffffffffedint,
        5760817366nat,
        0x17a00a64fe37ec85581230d1e561b87dd8a1ea7ee66c9d2c11ba1b63deb59f0cint,
        (false, false, false, true, false, false, true, false),
        0x1a811ab51bd54a94bacf2cf382e2f97209a24142801a0e379d1046c14b4572ceint,
        0x768689639ba7f5d49e0fc170bb9b42165dafda009f16a846af5af7eae0c8dddfint,
        0x69cbe5ac00765d5174d0c561c0911a8d00217694bd563f92ff28c917ec5459d3int,
        0x5aa03f08493cad10e5dc071cd13263f488c5dd2bd8df07942d8f2577119ad332int,
        0x2593d5617628f56e2203343b92594bc52187bc35ecca0a7cc59d9d3153cbbe0dint,
        0x20245b56aa2733f6700b4d79227f5b4fa6ac6e04c118cf9861fd1dc653e22240int,
        0x9a027599a9ded6ac6ff12a5b6e2237a49749f1dff0eb780aa2e0ce1c3d125bbint,
        0x64a03c7c9c51af6ecac41e65584f63a23cb8300c84aa2fe7e1150e140a33e9fcint,
    );
    powers::lemma_walk_eight(
        0x39594c88ef13f78c58fa420556dc156b33250156d89d6028b20fa90adb16775bint,
        0x7fffffffffffffffffffffffffffffffffffffffffffffffffffffffffffffedint,
        1474769245714nat,
        0x64a03c7c9c51af6ecac41e65584f63a23cb8300c84aa2fe7e1150e140a33e9fcint,
        (true, false, false, true, true, true, true, true),
        0x39f99f274715b59459b84dd4f330b9bdd8525f44588c599da1f5449cfc932687int,
        0x5a1cd37e1dd1cc69ffbe31556b92e9e00e31708930b8373235ddadab8bb9262dint,
        0x157186b6d7ead25d7763ecf67170e81b8ab59e5abb0422a347da147843e26521int,
        0x32b2b9d333f598c70ed171b99690d697f33c87e25464aa5195b7bdccba6fc6int,
        0x38e411a665f6b3499b553d96a0d7eecc16bd19681bd362c59b8cb388e1f83e0fint,
        0x6550262b67d74a4bedd72652e68d68537bcb2aa8b8443bc141ccd4bd4d9e729dint,
        0x3af951e89729f3a90962bfceacaa7553d6974082d5863a094dbc80ba8fc735c5int,
        0x7ccc6f1488d66db4f6a34fe43899dd186ab4eee640a9f337a7d593f9c0995a1bint,
    );
}

proof fn lemma_curve_constant_half_1()
    requires
        pow(0x39594c88ef13f78c58fa420556dc156b33250156d89d6028b20fa90adb16775bint,
            377540926902943nat) % 0x7fffffffffffffffffffffffffffffffffffffffffffffffffffffffffffffedint == 0x7ccc6f1488d66db4f6a34fe43899dd186ab4eee640a9f337a7d593f9c0995a1bint,
    ensures
        pow(0x39594c88ef13f78c58fa420556dc156b33250156d89d6028b20fa90adb16775bint,
            106268323607325538214202676597nat) % 0x7fffffffffffffffffffffffffffffffffffffffffffffffffffffffffffffedint == 0x3885e0073be64c0766e82edcdde25afa452d897078a9bae84a9c811bd26a6d7cint,
{
    powers::lemma_walk_eight(
        0x39594c88ef13f78c58fa420556dc156b33250156d89d6028b20fa90adb16775bint,
        0x7fffffffffffffffffffffffffffffffffffffffffffffffffffffffffffffedint,
        377540926902943nat,
        0x7ccc6f1488d66db4f6a34fe43899dd186ab4eee640a9f337a7d593f9c0995a1bint,
        (true, false, true, false, false, false, false, true),
        0x1b347366c65cb1fb773c083cde8c2ab081454305e8829fe54509b30ebf5ad79eint,
        0x4a7bdb541f70f1eccd1b6d5c70ea769079453e5aa08238cf0f03cea97b390f06int,
        0x2dd8421f706a5aeaeabc8e1713e85810cd98cb4a7bbf5ee9d468d2c6fa6e4ffint,
        0x75036de5c124c8e0326fb7470e9fec1d62f5539a3182df3040b979d7364d4e51int,
        0x346cb3383ff7bc634aa1a4fc5b124001fcbdad85fd9f7fffa38d8966f095f1fdint,
        0x1acc9277a1e8271a02f67ebf11977ec114d0c0db7127bda514c1bb970c35e618int,
        0x22d3e9289bcaa5f5e740980692c64c476fe03b67c465b03a0a054cc60c33bea1int,
        0x4009fb7b3a7f7fe5c31a0855ec80c169705dfe3506fbf44692d8d101eaa5cfbbint,
    );
    powers::lemma_walk_eight(
        0x39594c88ef13f78c58fa420556dc156b33250156d89d6028b20fa90adb16775bint,
        0x7fffffffffffffffffffffffffffffffffffffffffffffffffffffffffffffedint,
        96650477287153569nat,
        0x4009fb7b3a7f7fe5c31a0855ec80c169705dfe3506fbf44692d8d101eaa5cfbbint,
        (true, true, true, false, false, true, true, false),
        0x7df48d74836ad2a37cd9c23a996b82a329a178339dd7d3d6d2ec1a6d3e44bc0bint,
        0xa254f45776e6106b28ccb399a6623400d5010cf6b49b1e3ee4d812327af7361int,
        0xa45049541d33e0a750cda67abc142a44b190a2a093c449e139166238ec10b38int,
        0x45fd04cd36b1dcbe3782b928f43d1afa1999528f579183dc824fd42e08aea897int,
        0x6315e4bf2ec1ed91b012f2ef3e5f080b3e31c52f16c1929ec46f2f96a2c876a1int,
        0x2065b16d0533c880301ec33d9056d3734511f798b5ea12974ea7d564ea7b11eaint,
        0x6cf2f12a0aeb87066845ca0a09b4f5aa4d8ddd20914ef80562dc6be60296c04eint,
        0xf8a8290f8e2ce7550ada058ba921e784dfcb5abcd8a1854e53799e67794cfc4int,
    );
    powers::lemma_walk_eight(
        0x39594c88ef13f78c58fa420556dc156b33250156d89d6028b20fa90adb16775bint,
        0x7fffffffffffffffffffffffffffffffffffffffffffffffffffffffffffffedint,
        24742522185511313894nat,
        0xf8a8290f8e2ce7550ada058ba921e784dfcb5abcd8a1854e53799e67794cfc4int,
        (false, true, false, true, true, false, false, false),
        0x35f2db30d152b1643d0d2605c55197885e316520c0d43596f18d91c13a45357eint,
        0x239582187057e941eb8879045160a673a93f4312758085618ad781f119907367int,
        0x4ceb1efc27ffe3e74caeadd297379f2bd968b30f08ca3f40770c789dfb2a9d39int,
        0xdddd1bb036b320797dd9a0002df5360e536513daac7d4a409564b0f2c486c01int,
        0x1137275a3016e148f2f7795d634403f228bcb0220bff8dfe85a01c2a7a696217int,
        0x4f0ad618132cd8f9fbe22fe286943a4024906017792195e9116e4c482102c9aeint,
        0x689cf53a3c6afb4e7f417bcc84cc64a20b711e71a1a2d8d745e494de159e4d5dint,
        0xeb83f614a3e5db18f61f56127149759a5db94e822706cc54159be86ffb38a46int,
    );
    powers::lemma_walk_eight(
        0x39594c88ef13f78c58fa420556dc156b33250156d89d6028b20fa90adb16775bint,
        0x7fffffffffffffffffffffffffffffffffffffffffffffffffffffffffffffedint,
        6334085679490896356952nat,
        0xeb83f614a3e5db18f61f56127149759a5db94e822706cc54159be86ffb38a46int,
        (false, true, false, true, true, false, false, true),
        0x75177b55d2040a050b80b8a5a77a757a0f54b129e659ec654d733654641246bcint,
        0x16ee981111fd00d05fca9db1c92d2b24beeaef2e9fb1c970aa2e90943faaffd6int,
        0x30a0a025442e2616ea2b887c77be897003b9079c082520ce7c85e04479a0921eint,
        0x5e39f10e3add36ba73803ce38d7b1da3c7c12ae5a6fc5d1b5f04c9ef22e1ebe3int,
        0x31d512457b81ff2147f59ab186c5513dc69997d3b066723a5a8a227f32452d05int,
        0xa35554f53f6075f0842dc628179077355ddb1bf1c7ac9a664d2c24071911196int,
        0x3115ca62d4bdcd8919d1d58a0ffcc4e99c5ddf7de5c4a561d9ed80c41a4d3d76int,
        0x4f44b64fa55c900fdaf2601b9db0a921224cde500a832eeea3c50e63c5fb64a7int,
    );
    powers::lemma_walk_eight(
        0x39594c88ef13f78c58fa420556dc156b33250156d89d6028b20fa90adb16775bint,
        0x7fffffffffffffffffffffffffffffffffffffffffffffffffffffffffffffedint,
        1621525933949669467379801nat,
        0x4f44b64fa55c900fdaf2601b9db0a921224cde500a832eeea3c50e63c5fb64a7int,
        (true, false, false, true, false, true, false, true),
        0xf6806199640837135abeb4d1e6d4d49f37c3825e99017b88ecce17b87697f8bint,
        0xbfd03eca99ebe460e1e88a618e0fe20f1ace769fdc7840db9e76971c3793255int,
        0x77d36e09461e30b49b71c6365b0060f3ffa4c93424a10ed923e606ed6e604ff9int,
        0x504112f9bbb000112613c446b1a31c98c3fcb12864db307a3f4307e8f46c0deint,
        0x4f650c1e4f302ca073d6b3fe801a3c42455b43e1b691a00e20a3db4c703a9f62int,
        0x4d507c26805f6beee30bbd2854200305058d99a51c1c019ce56317a309880e3bint,
        0x3d48130dfe5f47c13a95eb3b71d6ca652a555de36816928670139be206b29581int,
        0x4de5035131369e005dbbcc36255f4994c59273077ed4805dc8da5608d14c11afint,
    );
    powers::lemma_walk_eight(
        0x39594c88ef13f78c58fa420556dc156b33250156d89d6028b20fa90adb16775bint,
        0x7fffffffffffffffffffffffffffffffffffffffffffffffffffffffffffffedint,
        415110639091115383649229205nat,
        0x4de5035131369e005dbbcc36255f4994c59273077ed4805dc8da5608d14c11afint,
        (false, true, true, true, false, true, false, true),
        0x4b2658abd84556930191d7b61305b5c0809cd8b8731c7e11f7437e5afe1a40d6int,
        0x3f5c8fd8dc5664696af33fcdf70940ed4205e9ff5a7d6df4e494f1afae42df43int,
        0x2af34a8afb7136e88930aa1d9677c02abad54495634f6d6d6fa7c22951ba105eint,
        0xd969b110c745132aa2a31dedf71115fc49d20387e479e4acfe7839a0eb5169aint,
        0x61429b11aa480ed73ed4b1a623a050fd1d596fadf7bc5fdb03fd70477f6a09a5int,
        0x1ae7c1794c59436b2393d0ad1223cd0b9dada1453e0389745ff7ee2226f1ea09int,
        0x200c00e3f3f996509292b25d6394ec8cf27b5b71da4ec892af5a4c3e98cef6a9int,
        0x3885e0073be64c0766e82edcdde25afa452d897078a9bae84a9c811bd26a6d7cint,
    );
}

proof fn lemma_curve_constant_half_2()
    requires
        pow(0x39594c88ef13f78c58fa420556dc156b33250156d89d6028b20fa90adb16775bint,
            106268323607325538214202676597nat) % 0x7fffffffffffffffffffffffffffffffffffffffffffffffffffffffffffffedint == 0x3885e0073be64c0766e82edcdde25afa452d897078a9bae84a9c811bd26a6d7cint,
    ensures
        pow(0x39594c88ef13f78c58fa420556dc156b33250156d89d6028b20fa90adb16775bint,
            29911873912452411074517318939552765686952738nat) % 0x7fffffffffffffffffffffffffffffffffffffffffffffffffffffffffffffedint == 0x11eadc220d1bf317275ac0cf6185fe1ba488d17f87641b0de0e7098500828e6eint,
{
    powers::lemma_walk_eight(
        0x39594c88ef13f78c58fa420556dc156b33250156d89d6028b20fa90adb16775bint,
        0x7fffffffffffffffffffffffffffffffffffffffffffffffffffffffffffffedint,
        106268323607325538214202676597nat,
        0x3885e0073be64c0766e82edcdde25afa452d897078a9bae84a9c811bd26a6d7cint,
        (false, true, true, true, false, false, false, false),
        0x4341a57c8cba66f3a166199119a459e46871f54c0c42b797d65db8cd553720e5int,
        0x582432f4c07ccd3ab4cdecbda2a58008df263574727e43195c676a85f2886e74int,
        0xea69574280323024f4740b415eddbdeac6730c2e49289c137d6b13132f38cbcint,
        0x34be5b4d7553d8b2342309d7dfb521a12986fbc74e564cf9128a8e2a95848f3bint,
        0x48b34e440f7470f58d237b32debdc02c684c8badf21d907266bf6a5734993389int,
        0x372ee4df9c701c748bfd28a9acefd7b64722f583473e3110f5d24e7c21a5ec6int,
        0x788aa4a955067bb7544eff84bf4b05f2a338f318a23e5f1759b44b48c2524a50int,
        0x2622108d54f9ecb555a0b3eaf0d9e1169054e0a13a3ceb35e4f5536a53b62268int,
    );
    powers::lemma_walk_eight(
        0x39594c88ef13f78c58fa420556dc156b33250156d89d6028b20fa90adb16775bint,
        0x7fffffffffffffffffffffffffffffffffffffffffffffffffffffffffffffedint,
        27204690843475337782835885208944nat,
        0x2622108d54f9ecb555a0b3eaf0d9e1169054e0a13a3ceb35e4f5536a53b62268int,
        (true, true, false, false, true, false, false, true),
        0x35f11da98e5ab31cda6b92d7f4e9067815c2a90493387fc02550aa4f8828e9c2int,
        0x185ad6aa0d3ed591b228f2b7d933dd6c050f8257b1f618a55ed0208accac9ea7int,
        0x44c07cc83bff1f8d0bd59991f68ac57f2ee4e43ea97b32a161fa9888fa4f3099int,
        0x188221769bbca0fadf8b350bbd410610f758bd2f354b2a72ff4f043af86a5b49int,
        0x7ca30fe83f3488cd837e9725452b0c6e1648e47211fe2a1772530b1ebc387c4cint,
        0x5ac71a173f47137ef17c1d8aa783645a44461bacf510344cd9c45542b7bbbd00int,
        0x78591e39c25a196824e4a3414e05ccf754638b4f4bb97a4134be190fa6241c9aint,
        0x4af42a1f963837974d8b02fae7e606e1db57cb999013d0ad9f8f5a6835fd2ad0int,
    );
    powers::lemma_walk_eight(
        0x39594c88ef13f78c58fa420556dc156b33250156d89d6028b20fa90adb16775bint,
        0x7fffffffffffffffffffffffffffffffffffffffffffffffffffffffffffffedint,
        6964400855929686472405986613489865nat,
        0x4af42a1f963837974d8b02fae7e606e1db57cb999013d0ad9f8f5a6835fd2ad0int,
        (true, false, true, true, false, true, true, true),
        0x3d00b3f5934c5481fb059de04653a235c8161b9dd1aee1979c8105727545b776int,
        0x25b064d7dfdc20dd3fd152b163922540883b042388d060889c9c9e6d3195e0a5int,
        0x2cdab535434721af6a54af3da68bd3d0aa29b24a85e8b5658d8e8107a7556404int,
        0x784b2955def3e10a48cdf9d405a903a7883ca73a27b1343abe20f3f4a073dabaint,
        0x700f871da22f9d9309d4e6908e930801d70a3c2b40fee2fd2f9e25d29d7d79eaint,
        0x5798e33a072c57ab6ed81c25f86caef1d42224810d65b56caa5f2e7801b7a9c5int,
        0x3718cbbadb7ded647f2b831365f0b432f907b342c4d1eec03e12f25a9ecb4c4fint,
        0x7ebe746725221029406ed3cd1c4665128a89e7a33d0f065061109500754cdcaint,
    );
    powers::lemma_walk_eight(
        0x39594c88ef13f78c58fa420556dc156b33250156d89d6028b20fa90adb16775bint,
        0x7fffffffffffffffffffffffffffffffffffffffffffffffffffffffffffffedint,
        1782886619117999736935932573053405623nat,
        0x7ebe746725221029406ed3cd1c4665128a89e7a33d0f065061109500754cdcaint,
        (true, true, false, true, true, false, false, true),
        0x22fa5091c2a9aee302e9551fbb1487b6e270ad009ca0487d861fbe602e60fbd6int,
        0x22104e115f2ad4dc248f22be0a7b38f9279c7833defb7e44e490cfb18cdba203int,
        0x36a9a60db4d09d827b45ac8dbd811ece442dd46417fcee583ef96b35b4df5f0fint,
        0x7c0485a6759645ff391bede61da94a7b3ee42f4ba80de163292e01bf1438e213int,
        0x442ef88144fe18ab4237112ff072030e41033dc04298ac14a801de661ea3cc63int,
        0x68afefbc0bb4159c0f29d7c2bc71f0b117f6475c1b4eb5c030a1757ef6d3095bint,
        0x144cf427e0e7235b65cc6347a1953c19d4fe80af55251785d44f19358bf57559int,
        0x461f53392a3924081c40983ced24107025ecf1aefaf9bd66681eb1787f50fa17int,
    );
    powers::lemma_walk_eight(
        0x39594c88ef13f78c58fa420556dc156b33250156d89d6028b20fa90adb16775bint,
        0x7fffffffffffffffffffffffffffffffffffffffffffffffffffffffffffffedint,
        456418974494207932655598738701671839705nat,
        0x461f53392a3924081c40983ced24107025ecf1aefaf9bd66681eb1787f50fa17int,
        (true, false, true, true, false, false, true, true),
        0x2834f826ab038e96abdeb0d59c349535b96a806fbda085c81d36dd8d48c33c75int,
        0x3ec2f1261546b87fe7573f5620acf5f4cc24e0f3508298098207e9bc93328ecfint,
        0x1421eff617b40c9534351ee0fd4232287b2e079be148695822b30d0a61da18ccint,
        0x5a52c1b47e86bd0e512ef21148ee865f9e49b7ad0c634a28326a4976bff6b789int,
        0x3129a938d4e9b1abc7eb464fc03a65b4c52ac0984013519e1901e08e5cf20dbfint,
        0x36d9a826f3b556b364651cf35f46d937d5667247f971f236bace5d863a95b044int,
        0x6c30e7fce67818b087f833215bd416d7c642df9db392a879dd8317683f79f79bint,
        0x7b590e18f7e19b008766457719d9040e00499fd8894b50df1214227d8066b1a6int,
    );
    powers::lemma_walk_eight(
        0x39594c88ef13f78c58fa420556dc156b33250156d89d6028b20fa90adb16775bint,
        0x7fffffffffffffffffffffffffffffffffffffffffffffffffffffffffffffedint,
        116843257470517230759833277107627990964659nat,
        0x7b590e18f7e19b008766457719d9040e00499fd8894b50df1214227d8066b1a6int,
        (false, false, true, false, false, false, true, false),
        0x6c16b01f642e814ad3a4fc65e08b9a23edc6f23268c26dc2c807cac3c3d5f5ddint,
        0xdcf4633d146a4584f4453447a60230404ec33174350ea817fe42e1e5b90ceabint,
        0x7f5acfbde991fc2a7c9d58a04aa4cf6435b7feda7a7b46edf3133e16c0b74778int,
        0x5758b834f5f08445b8aa710df266547a672aeaed69b127bf9ca1907f888d9b5bint,
        0x4ae659bcc1ada973f00e9aa61e3c8bd0304669c9bc7494d28a499cf2f9d897d1int,
        0x62223d4bd475c91911c71313dfa29c24ee32779997821308f7528c203b8d839aint,
        0x711685712a680cd0786532f0f60d864384ecf5c8d2ff1dd7ed448267ca0ef2d6int,
        0x11eadc220d1bf317275ac0cf6185fe1ba488d17f87641b0de0e7098500828e6eint,
    );
}

proof fn lemma_curve_constant_half_3()
    requires
        pow(0x39594c88ef13f78c58fa420556dc156b33250156d89d6028b20fa90adb16775bint,
            29911873912452411074517318939552765686952738nat) % 0x7fffffffffffffffffffffffffffffffffffffffffffffffffffffffffffffedint == 0x11eadc220d1bf317275ac0cf6185fe1ba488d17f87641b0de0e7098500828e6eint,
    ensures
        pow(0x39594c88ef13f78c58fa420556dc156b33250156d89d6028b20fa90adb16775bint,
            8419444012879621175469677204667139980775455844134955630336nat) % 0x7fffffffffffffffffffffffffffffffffffffffffffffffffffffffffffffedint == 0xcb7aa1308d0b0719103318a074f3575b15fc2ff02c3262187afe58de23d4651int,
{
    powers::lemma_walk_eight(
        0x39594c88ef13f78c58fa420556dc156b33250156d89d6028b20fa90adb16775bint,
        0x7fffffffffffffffffffffffffffffffffffffffffffffffffffffffffffffedint,
        29911873912452411074517318939552765686952738nat,
        0x11eadc220d1bf317275ac0cf6185fe1ba488d17f87641b0de0e7098500828e6eint,
        (true, false, false, false, true, false, false, false),
        0x1aa9fa83a506485352ad4690d7ad37f9e59e0b51692a8107bfeef1b0873cd7fbint,
        0x6549621f1b3d1e73ada40e1f4be621864ae7dd140a5736324c6699d5f299ccb4int,
        0x19499e72c31bbe8a3689001bd7ed543bf187b91f813bb3aaf4d68d3020e6fca6int,
        0x288ce186d3030ef522bc58355c05e1d54a7ec5827a47b739a80ff33bf643f67int,
        0x5584e11e20298b73c7a0cf6e9cbbbc80acca0601a0db174bb64063a5b4bca06bint,
        0x444a75764a1a359989c89a5689ac3f84e5810ceb1cd425eb040b61085ae68e1aint,
        0x316e05acbbd866e4726e886408879458bb347f5b7ac558d3137cc3b659e7851fint,
        0x3c95e1261d437c0747d7c8d95312ca52a716ada3c00d498a855e082c4858929dint,
    );
    powers::lemma_walk_eight(
        0x39594c88ef13f78c58fa420556dc156b33250156d89d6028b20fa90adb16775bint,
        0x7fffffffffffffffffffffffffffffffffffffffffffffffffffffffffffffedint,
        7657439721587817235076433648525508015859901064nat,
        0x3c95e1261d437c0747d7c8d95312ca52a716ada3c00d498a855e082c4858929dint,
        (true, true, false, false, true, true, true, true),
        0x2cfa5fa09ab8fca773806b3eee40840ea8119c1036e0a53f14b3786064dce4a6int,
        0x50213fa1d872f9ff508c2428f5846cf94d3dafbf642e51b46eed43daeb172b5eint,
        0x190607f29eaf9cf6af682e570cb9a2b8ed6397be9f67c1cb0835951f31232c6fint,
        0x6d41bcfbda7fe179c99f6e0f1b82b681d3f31f83db6f0d50d8675ab37dd7e199int,
        0x6e89fb4543eee9ee7c379f01ebbe34110fd56bc17243a4b507af6eafa0df3c0int,
        0x1f1463116e83123304a0fb333c1a202936c4cfabb9711676002212141fc67e6fint,
        0x6936c28fae938e5ed95ef589086bc0ff433072ab8e1469355cbb0d7ff97d9401int,
        0x3b1b3d3d0c9b3c03b8be999b53eac6d681e2c1891a81fe5664cfde09c66137d0int,
    );
    powers::lemma_walk_eight(
        0x39594c88ef13f78c58fa420556dc156b33250156d89d6028b20fa90adb16775bint,
        0x7fffffffffffffffffffffffffffffffffffffffffffffffffffffffffffffedint,
        1960304568726481212179567014022530052060134672591nat,
        0x3b1b3d3d0c9b3c03b8be999b53eac6d681e2c1891a81fe5664cfde09c66137d0int,
        (false, false, true, true, true, false, false, false),
        0x3990cf9caf1b28fff78f6e0c282308e0a9170cc7ddaf06929586ed885c423950int,
        0x48534c17e60dd1cbccfd73eeab7be78387312eeed8bc6aef4263357e3020061aint,
        0x31a6e03c64f4401e3f3ac5af87a6b3eb0be1e57fa20249432eb7eb9d13a72e80int,
        0x7b8fd5dc139f85724949ab4b5d57b64d7ae85f846edac94fdc180b4a272d448dint,
        0x45c7acc51dc8be946a50bbb33e870ce9f57148c97bf5e57c3d88964536430a45int,
        0xb1992ecb542f9890a0dd79fbf874ebe1148d116e296bdc50630a0113b60478cint,
        0x6712d0a4f4b4250f99f50d05313778a77a12382eee8aa788476246b5d98bba1int,
        0xc7dc3cafdc9d5e67db255fceaa78c808da510768d17f5d30a687599a5364c38int,
    );
    powers::lemma_walk_eight(
        0x39594c88ef13f78c58fa420556dc156b33250156d89d6028b20fa90adb16775bint,
        0x7fffffffffffffffffffffffffffffffffffffffffffffffffffffffffffffedint,
        501837969593979190317969155589767693327394476183352nat,
        0xc7dc3cafdc9d5e67db255fceaa78c808da510768d17f5d30a687599a5364c38int,
        (false, false, true, true, false, true, false, true),
        0x6efa6736d2ed2119a38467f2b3904e693016b8515a584efda3cbc98178d3ecc0int,
        0x5f5468f712a6453ff26ca7cc4f1901a57723e6c75fac3dd66cdaa8bdeb1d9fd9int,
        0x765349aec9512446f42e3de636f0d923bf3c7d2e6b8fed91ef2f2b71da621fcdint,
        0x5efd21a57479df3080260929c9414c9023676f197b8543e0af916a441b0c9366int,
        0x699381f5eb70df017ae47293b5ab04d35284a6e34d299124fabde80bf80b7b8cint,
        0xaff0a585f57ea55e8155da39fd5f37c0b4a2998b51e41e4e40c3e96ef633f7int,
        0x64dcc78cfb71e9ba494b63205e5778c0a691499d223a45ae225c66e0ba902fcaint,
        0x1f37497ca176ace31e3143f98c5e1a524279e549ac2c5996f2f3d83ad3a2ada0int,
    );
    powers::lemma_walk_eight(
        0x39594c88ef13f78c58fa420556dc156b33250156d89d6028b20fa90adb16775bint,
        0x7fffffffffffffffffffffffffffffffffffffffffffffffffffffffffffffedint,
        128470520216058672721400103830980529491812985902938165nat,
        0x1f37497ca176ace31e3143f98c5e1a524279e549ac2c5996f2f3d83ad3a2ada0int,
        (true, false, true, true, true, true, true, true),
        0x696014d8cfef7640173849a37589fc228757238261a3ab4d3a203cfbf7bd2bcfint,
        0x50c49830c67ecd8cdd50d9af9e3277ab09e757f2661987b10f5057ec6e8a8dcdint,
        0x1f3edd8301e98c27c993945cff46d33254a40984b380bec5feaecac0ed643938int,
        0x6703404d79897506441c1d17f3d616f45b93dc8d7c9d32dc220a751c776ffc23int,
        0x420a01e16122589a8aea73c03fd8daa8befc4f7587b4de4460394a33bbe34ad1int,
        0x11e228572be72df0db12ab5eba5133f766af77a84813ceb0cd4b89bfa70656d5int,
        0x2ace2a6b3b5eb6d06ce06d04ec124563a53f0a4b33259cfe595c274e359b7a66int,
        0x30a165ee62c08b368b2947db86f3cad44347a17f1beb6d22498dd091be3ad85eint,
    );
    powers::lemma_walk_eight(
        0x39594c88ef13f78c58fa420556dc156b33250156d89d6028b20fa90adb16775bint,
        0x7fffffffffffffffffffffffffffffffffffffffffffffffffffffffffffffedint,
        32888453175311020216678426580731015549904124391152170431nat,
        0x30a165ee62c08b368b2947db86f3cad44347a17f1beb6d22498dd091be3ad85eint,
        (false, false, false, false, false, false, false, false),
        0x21e993b9a33147e494593b61af6a0f14ef24f4db2834db505bc8b9bb5493acd2int,
        0x6c56c312a8f20bf27c19fb9d8f5c1b06898f14f0e3025e0641e4677ab3fe775bint,
        0x3e15d9f5ca720f11c780cf7ff01efe98d4990317e8a292b0038f6f499ee115e5int,
        0x6c55bb09a5b108cc6fbc98f9946856bc89c32560cc9adbdefba147f521a24e93int,
        0x5cf8a7092732cf26f080d291da072ad08a8a548680b2c2d9f544d87ff5cf3a2fint,
        0x7c1607a473cd3a14c8996fd4459b12794f9c6153e282eca2d3d227732a52c676int,
        0x7785bbab670c36b6b0171544859e719175db4a0726519e049658400fab1cb050int,
        0xcb7aa1308d0b0719103318a074f3575b15fc2ff02c3262187afe58de23d4651int,
    );
}

proof fn lemma_curve_constant_half_4()
    requires
        pow(0x39594c88ef13f78c58fa420556dc156b33250156d89d6028b20fa90adb16775bint,
            8419444012879621175469677204667139980775455844134955630336nat) % 0x7fffffffffffffffffffffffffffffffffffffffffffffffffffffffffffffedint == 0xcb7aa1308d0b0719103318a074f3575b15fc2ff02c3262187afe58de23d4651int,
    ensures
        pow(0x39594c88ef13f78c58fa420556dc156b33250156d89d6028b20fa90adb16775bint,
            74058212732561358302231226437062788676166966415465897661863160754340907nat) % 0x7fffffffffffffffffffffffffffffffffffffffffffffffffffffffffffffedint == 0x7fffffffffffffffffffffffffffffffffffffffffffffffffffffffffffffecint,
{
    powers::lemma_walk_eight(
        0x39594c88ef13f78c58fa420556dc156b33250156d89d6028b20fa90adb16775bint,
        0x7fffffffffffffffffffffffffffffffffffffffffffffffffffffffffffffedint,
        8419444012879621175469677204667139980775455844134955630336nat,
        0xcb7aa1308d0b0719103318a074f3575b15fc2ff02c3262187afe58de23d4651int,
        (true, false, false, true, false, false, false, true),
        0x13d8377128f8bbad73ddf93b4f98af6175244894c5f9da264bab73f63b94b359int,
        0x68a545fd01a035182d68e5ccdeab584c5cba6b9dd604075b73f05efd3a20ad6cint,
        0x6f211ab019ee72a54ae08f14849a39384a391eb305a5509316d2da7382088166int,
        0x74f2c519fe08c9dfb0d223679cc8a16e39f512dd51ba7cf3534ff6f648b598b4int,
        0x78a1a7fbb23c238fe7632b6eca935d66bad34bc865b95caca87a4f1d0de85845int,
        0x6354f64dddb00d4f9dfa095321c12c4fae11245cbd9cac6f9f63037b13b91080int,
        0x7dc6d36239eb6989533d23180e9db48f214fd4e1f6ba633b903473b2609b5d21int,
        0x639874abe321d57e68bca4c14f72c104e91ed4a94d50f1b4e0896f371d5e0479int,
    );
    powers::lemma_walk_eight(
        0x39594c88ef13f78c58fa420556dc156b33250156d89d6028b20fa90adb16775bint,
        0x7fffffffffffffffffffffffffffffffffffffffffffffffffffffffffffffedint,
        2155377667297183020920237364394787835078516696098548641366161nat,
        0x639874abe321d57e68bca4c14f72c104e91ed4a94d50f1b4e0896f371d5e0479int,
        (false, false, true, true, false, false, false, true),
        0x7a9ee6ae85fb36becc1c8d9ce8c22f6f784b273ccf45ed5934856e3284531bc2int,
        0x7d285a953f6e8f4beefefdd1bb530b5712b51198df84a6e265701def1cd6b620int,
        0x2417471ae3ecb77ced240102b1f4c4d68a81ec4c3a8f324994771b12629b3e86int,
        0x1ced6b17bee7251ff0a444a92b19ec0293b51769968512c519e942504854d521int,
        0x65d480a7419ddb6839be216d9957d85499012ddfa9409a328d0bcb3721e9f935int,
        0x4c2516ffa5c14eb624650ef4d5a93bf44a9bdd453fd15d8e28e0ff73af7d64ddint,
        0x5164cd187ce872e4a82a3317146dd2abc9d2b1e0a08df9486f127ec33022bd09int,
        0x7592a9eec3406c89cc7acac97d43c341a5fc0827523e637f851403faa1f3bddfint,
    );
    powers::lemma_walk_eight(
        0x39594c88ef13f78c58fa420556dc156b33250156d89d6028b20fa90adb16775bint,
        0x7fffffffffffffffffffffffffffffffffffffffffffffffffffffffffffffedint,
        551776682828078853355580765285065685780100274201228452189737265nat,
        0x7592a9eec3406c89cc7acac97d43c341a5fc0827523e637f851403faa1f3bddfint,
        (true, true, true, true, false, true, true, false),
        0x4dd449e822cea3b96333472ce6e0a0084f7f27b2ad16a8a0ff6de121c1532a3bint,
        0x191250f554aecce4be1349d7f5163213e6c19af8d33c56f9db9d314dced068a9int,
        0x80141e117b85e00b42638abe7ecb6a3a1b24b7a17f512f16c8e1724591e723aint,
        0x74e681a018b73361fcc4bb04d425337a69231d25c93d23fbaa44b1c13b7b904int,
        0x5c532c70b8406dfdcd8bb3f9aef09fd9dee41a1b246db81555c97ccbb6cfa79bint,
        0x6792b5d07d75acb45a2247a547f3f3ef9aefd4950f9b0c6d9129c7149ed836d7int,
        0x670233037a2d8e1d468e992ca3e505e24d7484440b741550843ca570cdb008a0int,
        0x77bf29b93562d799ff3c0046790e0b0928dc4a22f43592d149825c53dd50c621int,
    );
    powers::lemma_walk_eight(
        0x39594c88ef13f78c58fa420556dc156b33250156d89d6028b20fa90adb16775bint,
        0x7fffffffffffffffffffffffffffffffffffffffffffffffffffffffffffffedint,
        141254830803988186459028675912976815559705670195514483760572740086nat,
        0x77bf29b93562d799ff3c0046790e0b0928dc4a22f43592d149825c53dd50c621int,
        (false, true, false, false, false, false, false, false),
        0x6b9744482914fb5e68e0ba307247d5aaaefa2e1645fcb6ae4a17fbeca35fc846int,
        0x5b0161ab7d07789d9ab896c5b06b231e6c504877f6ae6b51d4b4475efa6aaa68int,
        0x55419ed3409290ba5f69029bc7d9fc83e8175ebe83fe40e9063e6b39329da0a9int,
        0x6887b1834bf62125cb866b567a5aaa37d5042afc5730728dc10c590410eafc41int,
        0x358d691d35523e4c32ad83ab43878287407ef59f64fc3f0340d11bf20448d787int,
        0x1bfee829f5053ae9532df033886f66202007eb4e01b6c993e8a01039049787a2int,
        0x188173da502e82d398288b6b32ef3bade3a5ad0f0322bb3bf1f12e730ab39926int,
        0x2377a3ac9bde16d188ae7afca53553ff79fbdf5e6ca9b2d43f36a75effadda5bint,
    );
    powers::lemma_walk_eight(
        0x39594c88ef13f78c58fa420556dc156b33250156d89d6028b20fa90adb16775bint,
        0x7fffffffffffffffffffffffffffffffffffffffffffffffffffffffffffffedint,
        36161236685820975733511341033722064783284651570051707842706621462080nat,
        0x2377a3ac9bde16d188ae7afca53553ff79fbdf5e6ca9b2d43f36a75effadda5bint,
        (true, false, false, false, false, true, false, true),
        0x1afd576988da6c4c7bcb486429a2dffb618414475f30604f4f3135b43be7a047int,
        0x40b0afd512a632140c2f2b36c90a13924dbb0e31a68d82475441e0e5381849f7int,
        0x65b1a74cfa903246c998a332cdf87e8c0125ebd523889fe3c85053d0df0b7930int,
        0x4f31bc13c2cab01032f5b4319b3e556f356ed3b0bedcd0595a26d9913c11d174int,
        0x7a3b08efa2728e4ae30d5b610eb303c0bcf49ca60c9cbae300546a2eec28886aint,
        0x1748dd400a057b5e11d1937871075a8e32ed7510a6210d60deb2146bc745b2d6int,
        0x3c31d21318fd2f9141ed4ab7e0dc785589298f3258fcf901ef4271763cb14418int,
        0x33a72fdda4f7bd4cbbe97c877c60d2b0c57020a83a86f1895ad638b75d06f212int,
    );
    powers::lemma_walk_one(0x39594c88ef13f78c58fa420556dc156b33250156d89d6028b20fa90adb16775bint,
        0x7fffffffffffffffffffffffffffffffffffffffffffffffffffffffffffffedint,
        9257276591570169787778903304632848584520870801933237207732895094292613nat,
        0x33a72fdda4f7bd4cbbe97c877c60d2b0c57020a83a86f1895ad638b75d06f212int, false,
        0x204e5435f9a6958e8921664e95abf8ade8c20e700b76ee82df9f887df85d5267int);
    powers::lemma_walk_one(0x39594c88ef13f78c58fa420556dc156b33250156d89d6028b20fa90adb16775bint,
        0x7fffffffffffffffffffffffffffffffffffffffffffffffffffffffffffffedint,
        18514553183140339575557806609265697169041741603866474415465790188585226nat,
        0x204e5435f9a6958e8921664e95abf8ade8c20e700b76ee82df9f887df85d5267int, true,
        0x7e8071e13e3b3c970f88dc8b3e2b4ca1ff7a831db8b65faae2057b66a31216faint);
    powers::lemma_walk_one(0x39594c88ef13f78c58fa420556dc156b33250156d89d6028b20fa90adb16775bint,
        0x7fffffffffffffffffffffffffffffffffffffffffffffffffffffffffffffedint,
        37029106366280679151115613218531394338083483207732948830931580377170453nat,
        0x7e8071e13e3b3c970f88dc8b3e2b4ca1ff7a831db8b65faae2057b66a31216faint, true,
        0x7fffffffffffffffffffffffffffffffffffffffffffffffffffffffffffffecint);
}

/// The rest of the power that decides whether the curve constant is a square.
proof fn lemma_curve_constant_half()
    ensures
        pow(0x39594c88ef13f78c58fa420556dc156b33250156d89d6028b20fa90adb16775bint,
            74058212732561358302231226437062788676166966415465897661863160754340907nat) % 0x7fffffffffffffffffffffffffffffffffffffffffffffffffffffffffffffedint == 0x7fffffffffffffffffffffffffffffffffffffffffffffffffffffffffffffecint,
{
    lemma_curve_constant_half_0();
    lemma_curve_constant_half_1();
    lemma_curve_constant_half_2();
    lemma_curve_constant_half_3();
    lemma_curve_constant_half_4();
}

/// The curve constant to the power `(p - 1) / 2` is `-1`.
proof fn lemma_curve_constant_power()
    ensures
        pow(0x52036cee2b6ffe738cc740797779e89800700a4d4141d8ab75eb4dca135978a3int,
            28948022309329048855892746252171976963317496166410141009864396001978282409974nat) % 0x7fffffffffffffffffffffffffffffffffffffffffffffffffffffffffffffedint == 0x7fffffffffffffffffffffffffffffffffffffffffffffffffffffffffffffecint,
        pow(0x52036cee2b6ffe738cc740797779e89800700a4d4141d8ab75eb4dca135978a3int,
            57896044618658097711785492504343953926634992332820282019728792003956564819948nat) % 0x7fffffffffffffffffffffffffffffffffffffffffffffffffffffffffffffedint == 1,
        pow(0x52036cee2b6ffe738cc740797779e89800700a4d4141d8ab75eb4dca135978a3int,
            781764nat) % 0x7fffffffffffffffffffffffffffffffffffffffffffffffffffffffffffffedint
            == 0x4a0757a58983a59e9f2500136f5e9ed11cb2adffe609d5869dc1498972a2fd72int,
{
    lemma_curve_constant_base();
    lemma_curve_constant_half();
    powers::lemma_compose(0x52036cee2b6ffe738cc740797779e89800700a4d4141d8ab75eb4dca135978a3int,
        0x7fffffffffffffffffffffffffffffffffffffffffffffffffffffffffffffedint, 390882nat,
        74058212732561358302231226437062788676166966415465897661863160754340907nat,
        0x39594c88ef13f78c58fa420556dc156b33250156d89d6028b20fa90adb16775bint,
        0x7fffffffffffffffffffffffffffffffffffffffffffffffffffffffffffffecint);
    powers::lemma_walk_one(0x52036cee2b6ffe738cc740797779e89800700a4d4141d8ab75eb4dca135978a3int,
        0x7fffffffffffffffffffffffffffffffffffffffffffffffffffffffffffffedint,
        28948022309329048855892746252171976963317496166410141009864396001978282409974nat,
        0x7fffffffffffffffffffffffffffffffffffffffffffffffffffffffffffffecint, false, 1);
    powers::lemma_walk_one(0x52036cee2b6ffe738cc740797779e89800700a4d4141d8ab75eb4dca135978a3int,
        0x7fffffffffffffffffffffffffffffffffffffffffffffffffffffffffffffedint, 390882nat,
        0x39594c88ef13f78c58fa420556dc156b33250156d89d6028b20fa90adb16775bint, false,
        0x4a0757a58983a59e9f2500136f5e9ed11cb2adffe609d5869dc1498972a2fd72int);
}

/// `2^255 - 19` is prime.
pub proof fn lemma_p_prime()
    ensures
        primes::is_prime(fp::p()),
{
    lemma_prime_236();
    lemma_curve_constant_power();
    powers::lemma_less_one(0x52036cee2b6ffe738cc740797779e89800700a4d4141d8ab75eb4dca135978a3int,
        0x7fffffffffffffffffffffffffffffffffffffffffffffffffffffffffffffedint, 781764nat,
        0x4a0757a58983a59e9f2500136f5e9ed11cb2adffe609d5869dc1498972a2fd72int,
        0x603da1e91a0f3bbac22c82b864c616212d766466b0ebb0ee05a372b5ee440714int);
    primes::lemma_pocklington(0x7fffffffffffffffffffffffffffffffffffffffffffffffffffffffffffffedint, 74058212732561358302231226437062788676166966415465897661863160754340907int, 781764nat, 0x52036cee2b6ffe738cc740797779e89800700a4d4141d8ab75eb4dca135978a3int, 0x603da1e91a0f3bbac22c82b864c616212d766466b0ebb0ee05a372b5ee440714int);
}

/// The curve constant is not a square modulo the field prime.
pub proof fn lemma_curve_d_nonsquare(s: int)
    ensures
        (s * s) % fp::p() != edwards::d(),
{
    lemma_p_prime();
    if (s * s) % fp::p() == edwards::d() {
        lemma_curve_constant_power();
        let h: nat = 28948022309329048855892746252171976963317496166410141009864396001978282409974nat;
        modular::lemma_small(edwards::d(), fp::p());
        if s % fp::p() == 0 {
            modular::lemma_small(0, fp::p());
            modular::lemma_cong_mul(s, 0, s, s, fp::p());
            assert(false);
        }
        primes::lemma_fermat(s, fp::p());
        modular::lemma_cong_pow(s * s, edwards::d(), h, fp::p());
        powers::lemma_square_base(s, h);
        assert(2 * h == fp::p() - 1);
    }
}

} // verus!
