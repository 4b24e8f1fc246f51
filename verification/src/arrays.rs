//! Element-wise conversion of fixed-size arrays, one length at a time, for
//! every length from 0 through 32. An array `[A; N]` converts to `[B; N]`
//! whenever `A` converts to `B`; the result keeps the length and converts
//! each element in place, so `output[i]` is the conversion of `input[i]`.

use crate::cast::Cast;
use vstd::prelude::*;

verus! {

impl<A: Copy + Cast<B>, B> Cast<[B; 0]> for [A; 0] {
    open spec fn cast_spec(self) -> [B; 0] {
        []
    }

    fn cast(self) -> (r: [B; 0]) {
        []
    }
}

impl<A: Copy + Cast<B>, B> Cast<[B; 1]> for [A; 1] {
    open spec fn cast_spec(self) -> [B; 1] {
        [self[0].cast_spec()]
    }

    fn cast(self) -> (r: [B; 1]) {
        [self[0].cast()]
    }
}

impl<A: Copy + Cast<B>, B> Cast<[B; 2]> for [A; 2] {
    open spec fn cast_spec(self) -> [B; 2] {
        [self[0].cast_spec(), self[1].cast_spec()]
    }

    fn cast(self) -> (r: [B; 2]) {
        [self[0].cast(), self[1].cast()]
    }
}

impl<A: Copy + Cast<B>, B> Cast<[B; 3]> for [A; 3] {
    open spec fn cast_spec(self) -> [B; 3] {
        [self[0].cast_spec(), self[1].cast_spec(), self[2].cast_spec()]
    }

    fn cast(self) -> (r: [B; 3]) {
        [self[0].cast(), self[1].cast(), self[2].cast()]
    }
}

impl<A: Copy + Cast<B>, B> Cast<[B; 4]> for [A; 4] {
    open spec fn cast_spec(self) -> [B; 4] {
        [
            self[0].cast_spec(), self[1].cast_spec(), self[2].cast_spec(),
            self[3].cast_spec()
        ]
    }

    fn cast(self) -> (r: [B; 4]) {
        [self[0].cast(), self[1].cast(), self[2].cast(), self[3].cast()]
    }
}

impl<A: Copy + Cast<B>, B> Cast<[B; 5]> for [A; 5] {
    open spec fn cast_spec(self) -> [B; 5] {
        [
            self[0].cast_spec(), self[1].cast_spec(), self[2].cast_spec(),
            self[3].cast_spec(), self[4].cast_spec()
        ]
    }

    fn cast(self) -> (r: [B; 5]) {
        [
            self[0].cast(), self[1].cast(), self[2].cast(), self[3].cast(),
            self[4].cast()
        ]
    }
}

impl<A: Copy + Cast<B>, B> Cast<[B; 6]> for [A; 6] {
    open spec fn cast_spec(self) -> [B; 6] {
        [
            self[0].cast_spec(), self[1].cast_spec(), self[2].cast_spec(),
            self[3].cast_spec(), self[4].cast_spec(), self[5].cast_spec()
        ]
    }

    fn cast(self) -> (r: [B; 6]) {
        [
            self[0].cast(), self[1].cast(), self[2].cast(), self[3].cast(),
            self[4].cast(), self[5].cast()
        ]
    }
}

impl<A: Copy + Cast<B>, B> Cast<[B; 7]> for [A; 7] {
    open spec fn cast_spec(self) -> [B; 7] {
        [
            self[0].cast_spec(), self[1].cast_spec(), self[2].cast_spec(),
            self[3].cast_spec(), self[4].cast_spec(), self[5].cast_spec(),
            self[6].cast_spec()
        ]
    }

    fn cast(self) -> (r: [B; 7]) {
        [
            self[0].cast(), self[1].cast(), self[2].cast(), self[3].cast(),
            self[4].cast(), self[5].cast(), self[6].cast()
        ]
    }
}

impl<A: Copy + Cast<B>, B> Cast<[B; 8]> for [A; 8] {
    open spec fn cast_spec(self) -> [B; 8] {
        [
            self[0].cast_spec(), self[1].cast_spec(), self[2].cast_spec(),
            self[3].cast_spec(), self[4].cast_spec(), self[5].cast_spec(),
            self[6].cast_spec(), self[7].cast_spec()
        ]
    }

    fn cast(self) -> (r: [B; 8]) {
        [
            self[0].cast(), self[1].cast(), self[2].cast(), self[3].cast(),
            self[4].cast(), self[5].cast(), self[6].cast(), self[7].cast()
        ]
    }
}

impl<A: Copy + Cast<B>, B> Cast<[B; 9]> for [A; 9] {
    open spec fn cast_spec(self) -> [B; 9] {
        [
            self[0].cast_spec(), self[1].cast_spec(), self[2].cast_spec(),
            self[3].cast_spec(), self[4].cast_spec(), self[5].cast_spec(),
            self[6].cast_spec(), self[7].cast_spec(), self[8].cast_spec()
        ]
    }

    fn cast(self) -> (r: [B; 9]) {
        [
            self[0].cast(), self[1].cast(), self[2].cast(), self[3].cast(),
            self[4].cast(), self[5].cast(), self[6].cast(), self[7].cast(),
            self[8].cast()
        ]
    }
}

impl<A: Copy + Cast<B>, B> Cast<[B; 10]> for [A; 10] {
    open spec fn cast_spec(self) -> [B; 10] {
        [
            self[0].cast_spec(), self[1].cast_spec(), self[2].cast_spec(),
            self[3].cast_spec(), self[4].cast_spec(), self[5].cast_spec(),
            self[6].cast_spec(), self[7].cast_spec(), self[8].cast_spec(),
            self[9].cast_spec()
        ]
    }

    fn cast(self) -> (r: [B; 10]) {
        [
            self[0].cast(), self[1].cast(), self[2].cast(), self[3].cast(),
            self[4].cast(), self[5].cast(), self[6].cast(), self[7].cast(),
            self[8].cast(), self[9].cast()
        ]
    }
}

impl<A: Copy + Cast<B>, B> Cast<[B; 11]> for [A; 11] {
    open spec fn cast_spec(self) -> [B; 11] {
        [
            self[0].cast_spec(), self[1].cast_spec(), self[2].cast_spec(),
            self[3].cast_spec(), self[4].cast_spec(), self[5].cast_spec(),
            self[6].cast_spec(), self[7].cast_spec(), self[8].cast_spec(),
            self[9].cast_spec(), self[10].cast_spec()
        ]
    }

    fn cast(self) -> (r: [B; 11]) {
        [
            self[0].cast(), self[1].cast(), self[2].cast(), self[3].cast(),
            self[4].cast(), self[5].cast(), self[6].cast(), self[7].cast(),
            self[8].cast(), self[9].cast(), self[10].cast()
        ]
    }
}

impl<A: Copy + Cast<B>, B> Cast<[B; 12]> for [A; 12] {
    open spec fn cast_spec(self) -> [B; 12] {
        [
            self[0].cast_spec(), self[1].cast_spec(), self[2].cast_spec(),
            self[3].cast_spec(), self[4].cast_spec(), self[5].cast_spec(),
            self[6].cast_spec(), self[7].cast_spec(), self[8].cast_spec(),
            self[9].cast_spec(), self[10].cast_spec(), self[11].cast_spec()
        ]
    }

    fn cast(self) -> (r: [B; 12]) {
        [
            self[0].cast(), self[1].cast(), self[2].cast(), self[3].cast(),
            self[4].cast(), self[5].cast(), self[6].cast(), self[7].cast(),
            self[8].cast(), self[9].cast(), self[10].cast(), self[11].cast()
        ]
    }
}

impl<A: Copy + Cast<B>, B> Cast<[B; 13]> for [A; 13] {
    open spec fn cast_spec(self) -> [B; 13] {
        [
            self[0].cast_spec(), self[1].cast_spec(), self[2].cast_spec(),
            self[3].cast_spec(), self[4].cast_spec(), self[5].cast_spec(),
            self[6].cast_spec(), self[7].cast_spec(), self[8].cast_spec(),
            self[9].cast_spec(), self[10].cast_spec(), self[11].cast_spec(),
            self[12].cast_spec()
        ]
    }

    fn cast(self) -> (r: [B; 13]) {
        [
            self[0].cast(), self[1].cast(), self[2].cast(), self[3].cast(),
            self[4].cast(), self[5].cast(), self[6].cast(), self[7].cast(),
            self[8].cast(), self[9].cast(), self[10].cast(), self[11].cast(),
            self[12].cast()
        ]
    }
}

impl<A: Copy + Cast<B>, B> Cast<[B; 14]> for [A; 14] {
    open spec fn cast_spec(self) -> [B; 14] {
        [
            self[0].cast_spec(), self[1].cast_spec(), self[2].cast_spec(),
            self[3].cast_spec(), self[4].cast_spec(), self[5].cast_spec(),
            self[6].cast_spec(), self[7].cast_spec(), self[8].cast_spec(),
            self[9].cast_spec(), self[10].cast_spec(), self[11].cast_spec(),
            self[12].cast_spec(), self[13].cast_spec()
        ]
    }

    fn cast(self) -> (r: [B; 14]) {
        [
            self[0].cast(), self[1].cast(), self[2].cast(), self[3].cast(),
            self[4].cast(), self[5].cast(), self[6].cast(), self[7].cast(),
            self[8].cast(), self[9].cast(), self[10].cast(), self[11].cast(),
            self[12].cast(), self[13].cast()
        ]
    }
}

impl<A: Copy + Cast<B>, B> Cast<[B; 15]> for [A; 15] {
    open spec fn cast_spec(self) -> [B; 15] {
        [
            self[0].cast_spec(), self[1].cast_spec(), self[2].cast_spec(),
            self[3].cast_spec(), self[4].cast_spec(), self[5].cast_spec(),
            self[6].cast_spec(), self[7].cast_spec(), self[8].cast_spec(),
            self[9].cast_spec(), self[10].cast_spec(), self[11].cast_spec(),
            self[12].cast_spec(), self[13].cast_spec(), self[14].cast_spec()
        ]
    }

    fn cast(self) -> (r: [B; 15]) {
        [
            self[0].cast(), self[1].cast(), self[2].cast(), self[3].cast(),
            self[4].cast(), self[5].cast(), self[6].cast(), self[7].cast(),
            self[8].cast(), self[9].cast(), self[10].cast(), self[11].cast(),
            self[12].cast(), self[13].cast(), self[14].cast()
        ]
    }
}

impl<A: Copy + Cast<B>, B> Cast<[B; 16]> for [A; 16] {
    open spec fn cast_spec(self) -> [B; 16] {
        [
            self[0].cast_spec(), self[1].cast_spec(), self[2].cast_spec(),
            self[3].cast_spec(), self[4].cast_spec(), self[5].cast_spec(),
            self[6].cast_spec(), self[7].cast_spec(), self[8].cast_spec(),
            self[9].cast_spec(), self[10].cast_spec(), self[11].cast_spec(),
            self[12].cast_spec(), self[13].cast_spec(), self[14].cast_spec(),
            self[15].cast_spec()
        ]
    }

    fn cast(self) -> (r: [B; 16]) {
        [
            self[0].cast(), self[1].cast(), self[2].cast(), self[3].cast(),
            self[4].cast(), self[5].cast(), self[6].cast(), self[7].cast(),
            self[8].cast(), self[9].cast(), self[10].cast(), self[11].cast(),
            self[12].cast(), self[13].cast(), self[14].cast(), self[15].cast()
        ]
    }
}

impl<A: Copy + Cast<B>, B> Cast<[B; 17]> for [A; 17] {
    open spec fn cast_spec(self) -> [B; 17] {
        [
            self[0].cast_spec(), self[1].cast_spec(), self[2].cast_spec(),
            self[3].cast_spec(), self[4].cast_spec(), self[5].cast_spec(),
            self[6].cast_spec(), self[7].cast_spec(), self[8].cast_spec(),
            self[9].cast_spec(), self[10].cast_spec(), self[11].cast_spec(),
            self[12].cast_spec(), self[13].cast_spec(), self[14].cast_spec(),
            self[15].cast_spec(), self[16].cast_spec()
        ]
    }

    fn cast(self) -> (r: [B; 17]) {
        [
            self[0].cast(), self[1].cast(), self[2].cast(), self[3].cast(),
            self[4].cast(), self[5].cast(), self[6].cast(), self[7].cast(),
            self[8].cast(), self[9].cast(), self[10].cast(), self[11].cast(),
            self[12].cast(), self[13].cast(), self[14].cast(), self[15].cast(),
            self[16].cast()
        ]
    }
}

impl<A: Copy + Cast<B>, B> Cast<[B; 18]> for [A; 18] {
    open spec fn cast_spec(self) -> [B; 18] {
        [
            self[0].cast_spec(), self[1].cast_spec(), self[2].cast_spec(),
            self[3].cast_spec(), self[4].cast_spec(), self[5].cast_spec(),
            self[6].cast_spec(), self[7].cast_spec(), self[8].cast_spec(),
            self[9].cast_spec(), self[10].cast_spec(), self[11].cast_spec(),
            self[12].cast_spec(), self[13].cast_spec(), self[14].cast_spec(),
            self[15].cast_spec(), self[16].cast_spec(), self[17].cast_spec()
        ]
    }

    fn cast(self) -> (r: [B; 18]) {
        [
            self[0].cast(), self[1].cast(), self[2].cast(), self[3].cast(),
            self[4].cast(), self[5].cast(), self[6].cast(), self[7].cast(),
            self[8].cast(), self[9].cast(), self[10].cast(), self[11].cast(),
            self[12].cast(), self[13].cast(), self[14].cast(), self[15].cast(),
            self[16].cast(), self[17].cast()
        ]
    }
}

impl<A: Copy + Cast<B>, B> Cast<[B; 19]> for [A; 19] {
    open spec fn cast_spec(self) -> [B; 19] {
        [
            self[0].cast_spec(), self[1].cast_spec(), self[2].cast_spec(),
            self[3].cast_spec(), self[4].cast_spec(), self[5].cast_spec(),
            self[6].cast_spec(), self[7].cast_spec(), self[8].cast_spec(),
            self[9].cast_spec(), self[10].cast_spec(), self[11].cast_spec(),
            self[12].cast_spec(), self[13].cast_spec(), self[14].cast_spec(),
            self[15].cast_spec(), self[16].cast_spec(), self[17].cast_spec(),
            self[18].cast_spec()
        ]
    }

    fn cast(self) -> (r: [B; 19]) {
        [
            self[0].cast(), self[1].cast(), self[2].cast(), self[3].cast(),
            self[4].cast(), self[5].cast(), self[6].cast(), self[7].cast(),
            self[8].cast(), self[9].cast(), self[10].cast(), self[11].cast(),
            self[12].cast(), self[13].cast(), self[14].cast(), self[15].cast(),
            self[16].cast(), self[17].cast(), self[18].cast()
        ]
    }
}

impl<A: Copy + Cast<B>, B> Cast<[B; 20]> for [A; 20] {
    open spec fn cast_spec(self) -> [B; 20] {
        [
            self[0].cast_spec(), self[1].cast_spec(), self[2].cast_spec(),
            self[3].cast_spec(), self[4].cast_spec(), self[5].cast_spec(),
            self[6].cast_spec(), self[7].cast_spec(), self[8].cast_spec(),
            self[9].cast_spec(), self[10].cast_spec(), self[11].cast_spec(),
            self[12].cast_spec(), self[13].cast_spec(), self[14].cast_spec(),
            self[15].cast_spec(), self[16].cast_spec(), self[17].cast_spec(),
            self[18].cast_spec(), self[19].cast_spec()
        ]
    }

    fn cast(self) -> (r: [B; 20]) {
        [
            self[0].cast(), self[1].cast(), self[2].cast(), self[3].cast(),
            self[4].cast(), self[5].cast(), self[6].cast(), self[7].cast(),
            self[8].cast(), self[9].cast(), self[10].cast(), self[11].cast(),
            self[12].cast(), self[13].cast(), self[14].cast(), self[15].cast(),
            self[16].cast(), self[17].cast(), self[18].cast(), self[19].cast()
        ]
    }
}

impl<A: Copy + Cast<B>, B> Cast<[B; 21]> for [A; 21] {
    open spec fn cast_spec(self) -> [B; 21] {
        [
            self[0].cast_spec(), self[1].cast_spec(), self[2].cast_spec(),
            self[3].cast_spec(), self[4].cast_spec(), self[5].cast_spec(),
            self[6].cast_spec(), self[7].cast_spec(), self[8].cast_spec(),
            self[9].cast_spec(), self[10].cast_spec(), self[11].cast_spec(),
            self[12].cast_spec(), self[13].cast_spec(), self[14].cast_spec(),
            self[15].cast_spec(), self[16].cast_spec(), self[17].cast_spec(),
            self[18].cast_spec(), self[19].cast_spec(), self[20].cast_spec()
        ]
    }

    fn cast(self) -> (r: [B; 21]) {
        [
            self[0].cast(), self[1].cast(), self[2].cast(), self[3].cast(),
            self[4].cast(), self[5].cast(), self[6].cast(), self[7].cast(),
            self[8].cast(), self[9].cast(), self[10].cast(), self[11].cast(),
            self[12].cast(), self[13].cast(), self[14].cast(), self[15].cast(),
            self[16].cast(), self[17].cast(), self[18].cast(), self[19].cast(),
            self[20].cast()
        ]
    }
}

impl<A: Copy + Cast<B>, B> Cast<[B; 22]> for [A; 22] {
    open spec fn cast_spec(self) -> [B; 22] {
        [
            self[0].cast_spec(), self[1].cast_spec(), self[2].cast_spec(),
            self[3].cast_spec(), self[4].cast_spec(), self[5].cast_spec(),
            self[6].cast_spec(), self[7].cast_spec(), self[8].cast_spec(),
            self[9].cast_spec(), self[10].cast_spec(), self[11].cast_spec(),
            self[12].cast_spec(), self[13].cast_spec(), self[14].cast_spec(),
            self[15].cast_spec(), self[16].cast_spec(), self[17].cast_spec(),
            self[18].cast_spec(), self[19].cast_spec(), self[20].cast_spec(),
            self[21].cast_spec()
        ]
    }

    fn cast(self) -> (r: [B; 22]) {
        [
            self[0].cast(), self[1].cast(), self[2].cast(), self[3].cast(),
            self[4].cast(), self[5].cast(), self[6].cast(), self[7].cast(),
            self[8].cast(), self[9].cast(), self[10].cast(), self[11].cast(),
            self[12].cast(), self[13].cast(), self[14].cast(), self[15].cast(),
            self[16].cast(), self[17].cast(), self[18].cast(), self[19].cast(),
            self[20].cast(), self[21].cast()
        ]
    }
}

impl<A: Copy + Cast<B>, B> Cast<[B; 23]> for [A; 23] {
    open spec fn cast_spec(self) -> [B; 23] {
        [
            self[0].cast_spec(), self[1].cast_spec(), self[2].cast_spec(),
            self[3].cast_spec(), self[4].cast_spec(), self[5].cast_spec(),
            self[6].cast_spec(), self[7].cast_spec(), self[8].cast_spec(),
            self[9].cast_spec(), self[10].cast_spec(), self[11].cast_spec(),
            self[12].cast_spec(), self[13].cast_spec(), self[14].cast_spec(),
            self[15].cast_spec(), self[16].cast_spec(), self[17].cast_spec(),
            self[18].cast_spec(), self[19].cast_spec(), self[20].cast_spec(),
            self[21].cast_spec(), self[22].cast_spec()
        ]
    }

    fn cast(self) -> (r: [B; 23]) {
        [
            self[0].cast(), self[1].cast(), self[2].cast(), self[3].cast(),
            self[4].cast(), self[5].cast(), self[6].cast(), self[7].cast(),
            self[8].cast(), self[9].cast(), self[10].cast(), self[11].cast(),
            self[12].cast(), self[13].cast(), self[14].cast(), self[15].cast(),
            self[16].cast(), self[17].cast(), self[18].cast(), self[19].cast(),
            self[20].cast(), self[21].cast(), self[22].cast()
        ]
    }
}

impl<A: Copy + Cast<B>, B> Cast<[B; 24]> for [A; 24] {
    open spec fn cast_spec(self) -> [B; 24] {
        [
            self[0].cast_spec(), self[1].cast_spec(), self[2].cast_spec(),
            self[3].cast_spec(), self[4].cast_spec(), self[5].cast_spec(),
            self[6].cast_spec(), self[7].cast_spec(), self[8].cast_spec(),
            self[9].cast_spec(), self[10].cast_spec(), self[11].cast_spec(),
            self[12].cast_spec(), self[13].cast_spec(), self[14].cast_spec(),
            self[15].cast_spec(), self[16].cast_spec(), self[17].cast_spec(),
            self[18].cast_spec(), self[19].cast_spec(), self[20].cast_spec(),
            self[21].cast_spec(), self[22].cast_spec(), self[23].cast_spec()
        ]
    }

    fn cast(self) -> (r: [B; 24]) {
        [
            self[0].cast(), self[1].cast(), self[2].cast(), self[3].cast(),
            self[4].cast(), self[5].cast(), self[6].cast(), self[7].cast(),
            self[8].cast(), self[9].cast(), self[10].cast(), self[11].cast(),
            self[12].cast(), self[13].cast(), self[14].cast(), self[15].cast(),
            self[16].cast(), self[17].cast(), self[18].cast(), self[19].cast(),
            self[20].cast(), self[21].cast(), self[22].cast(), self[23].cast()
        ]
    }
}

impl<A: Copy + Cast<B>, B> Cast<[B; 25]> for [A; 25] {
    open spec fn cast_spec(self) -> [B; 25] {
        [
            self[0].cast_spec(), self[1].cast_spec(), self[2].cast_spec(),
            self[3].cast_spec(), self[4].cast_spec(), self[5].cast_spec(),
            self[6].cast_spec(), self[7].cast_spec(), self[8].cast_spec(),
            self[9].cast_spec(), self[10].cast_spec(), self[11].cast_spec(),
            self[12].cast_spec(), self[13].cast_spec(), self[14].cast_spec(),
            self[15].cast_spec(), self[16].cast_spec(), self[17].cast_spec(),
            self[18].cast_spec(), self[19].cast_spec(), self[20].cast_spec(),
            self[21].cast_spec(), self[22].cast_spec(), self[23].cast_spec(),
            self[24].cast_spec()
        ]
    }

    fn cast(self) -> (r: [B; 25]) {
        [
            self[0].cast(), self[1].cast(), self[2].cast(), self[3].cast(),
            self[4].cast(), self[5].cast(), self[6].cast(), self[7].cast(),
            self[8].cast(), self[9].cast(), self[10].cast(), self[11].cast(),
            self[12].cast(), self[13].cast(), self[14].cast(), self[15].cast(),
            self[16].cast(), self[17].cast(), self[18].cast(), self[19].cast(),
            self[20].cast(), self[21].cast(), self[22].cast(), self[23].cast(),
            self[24].cast()
        ]
    }
}

impl<A: Copy + Cast<B>, B> Cast<[B; 26]> for [A; 26] {
    open spec fn cast_spec(self) -> [B; 26] {
        [
            self[0].cast_spec(), self[1].cast_spec(), self[2].cast_spec(),
            self[3].cast_spec(), self[4].cast_spec(), self[5].cast_spec(),
            self[6].cast_spec(), self[7].cast_spec(), self[8].cast_spec(),
            self[9].cast_spec(), self[10].cast_spec(), self[11].cast_spec(),
            self[12].cast_spec(), self[13].cast_spec(), self[14].cast_spec(),
            self[15].cast_spec(), self[16].cast_spec(), self[17].cast_spec(),
            self[18].cast_spec(), self[19].cast_spec(), self[20].cast_spec(),
            self[21].cast_spec(), self[22].cast_spec(), self[23].cast_spec(),
            self[24].cast_spec(), self[25].cast_spec()
        ]
    }

    fn cast(self) -> (r: [B; 26]) {
        [
            self[0].cast(), self[1].cast(), self[2].cast(), self[3].cast(),
            self[4].cast(), self[5].cast(), self[6].cast(), self[7].cast(),
            self[8].cast(), self[9].cast(), self[10].cast(), self[11].cast(),
            self[12].cast(), self[13].cast(), self[14].cast(), self[15].cast(),
            self[16].cast(), self[17].cast(), self[18].cast(), self[19].cast(),
            self[20].cast(), self[21].cast(), self[22].cast(), self[23].cast(),
            self[24].cast(), self[25].cast()
        ]
    }
}

impl<A: Copy + Cast<B>, B> Cast<[B; 27]> for [A; 27] {
    open spec fn cast_spec(self) -> [B; 27] {
        [
            self[0].cast_spec(), self[1].cast_spec(), self[2].cast_spec(),
            self[3].cast_spec(), self[4].cast_spec(), self[5].cast_spec(),
            self[6].cast_spec(), self[7].cast_spec(), self[8].cast_spec(),
            self[9].cast_spec(), self[10].cast_spec(), self[11].cast_spec(),
            self[12].cast_spec(), self[13].cast_spec(), self[14].cast_spec(),
            self[15].cast_spec(), self[16].cast_spec(), self[17].cast_spec(),
            self[18].cast_spec(), self[19].cast_spec(), self[20].cast_spec(),
            self[21].cast_spec(), self[22].cast_spec(), self[23].cast_spec(),
            self[24].cast_spec(), self[25].cast_spec(), self[26].cast_spec()
        ]
    }

    fn cast(self) -> (r: [B; 27]) {
        [
            self[0].cast(), self[1].cast(), self[2].cast(), self[3].cast(),
            self[4].cast(), self[5].cast(), self[6].cast(), self[7].cast(),
            self[8].cast(), self[9].cast(), self[10].cast(), self[11].cast(),
            self[12].cast(), self[13].cast(), self[14].cast(), self[15].cast(),
            self[16].cast(), self[17].cast(), self[18].cast(), self[19].cast(),
            self[20].cast(), self[21].cast(), self[22].cast(), self[23].cast(),
            self[24].cast(), self[25].cast(), self[26].cast()
        ]
    }
}

impl<A: Copy + Cast<B>, B> Cast<[B; 28]> for [A; 28] {
    open spec fn cast_spec(self) -> [B; 28] {
        [
            self[0].cast_spec(), self[1].cast_spec(), self[2].cast_spec(),
            self[3].cast_spec(), self[4].cast_spec(), self[5].cast_spec(),
            self[6].cast_spec(), self[7].cast_spec(), self[8].cast_spec(),
            self[9].cast_spec(), self[10].cast_spec(), self[11].cast_spec(),
            self[12].cast_spec(), self[13].cast_spec(), self[14].cast_spec(),
            self[15].cast_spec(), self[16].cast_spec(), self[17].cast_spec(),
            self[18].cast_spec(), self[19].cast_spec(), self[20].cast_spec(),
            self[21].cast_spec(), self[22].cast_spec(), self[23].cast_spec(),
            self[24].cast_spec(), self[25].cast_spec(), self[26].cast_spec(),
            self[27].cast_spec()
        ]
    }

    fn cast(self) -> (r: [B; 28]) {
        [
            self[0].cast(), self[1].cast(), self[2].cast(), self[3].cast(),
            self[4].cast(), self[5].cast(), self[6].cast(), self[7].cast(),
            self[8].cast(), self[9].cast(), self[10].cast(), self[11].cast(),
            self[12].cast(), self[13].cast(), self[14].cast(), self[15].cast(),
            self[16].cast(), self[17].cast(), self[18].cast(), self[19].cast(),
            self[20].cast(), self[21].cast(), self[22].cast(), self[23].cast(),
            self[24].cast(), self[25].cast(), self[26].cast(), self[27].cast()
        ]
    }
}

impl<A: Copy + Cast<B>, B> Cast<[B; 29]> for [A; 29] {
    open spec fn cast_spec(self) -> [B; 29] {
        [
            self[0].cast_spec(), self[1].cast_spec(), self[2].cast_spec(),
            self[3].cast_spec(), self[4].cast_spec(), self[5].cast_spec(),
            self[6].cast_spec(), self[7].cast_spec(), self[8].cast_spec(),
            self[9].cast_spec(), self[10].cast_spec(), self[11].cast_spec(),
            self[12].cast_spec(), self[13].cast_spec(), self[14].cast_spec(),
            self[15].cast_spec(), self[16].cast_spec(), self[17].cast_spec(),
            self[18].cast_spec(), self[19].cast_spec(), self[20].cast_spec(),
            self[21].cast_spec(), self[22].cast_spec(), self[23].cast_spec(),
            self[24].cast_spec(), self[25].cast_spec(), self[26].cast_spec(),
            self[27].cast_spec(), self[28].cast_spec()
        ]
    }

    fn cast(self) -> (r: [B; 29]) {
        [
            self[0].cast(), self[1].cast(), self[2].cast(), self[3].cast(),
            self[4].cast(), self[5].cast(), self[6].cast(), self[7].cast(),
            self[8].cast(), self[9].cast(), self[10].cast(), self[11].cast(),
            self[12].cast(), self[13].cast(), self[14].cast(), self[15].cast(),
            self[16].cast(), self[17].cast(), self[18].cast(), self[19].cast(),
            self[20].cast(), self[21].cast(), self[22].cast(), self[23].cast(),
            self[24].cast(), self[25].cast(), self[26].cast(), self[27].cast(),
            self[28].cast()
        ]
    }
}

impl<A: Copy + Cast<B>, B> Cast<[B; 30]> for [A; 30] {
    open spec fn cast_spec(self) -> [B; 30] {
        [
            self[0].cast_spec(), self[1].cast_spec(), self[2].cast_spec(),
            self[3].cast_spec(), self[4].cast_spec(), self[5].cast_spec(),
            self[6].cast_spec(), self[7].cast_spec(), self[8].cast_spec(),
            self[9].cast_spec(), self[10].cast_spec(), self[11].cast_spec(),
            self[12].cast_spec(), self[13].cast_spec(), self[14].cast_spec(),
            self[15].cast_spec(), self[16].cast_spec(), self[17].cast_spec(),
            self[18].cast_spec(), self[19].cast_spec(), self[20].cast_spec(),
            self[21].cast_spec(), self[22].cast_spec(), self[23].cast_spec(),
            self[24].cast_spec(), self[25].cast_spec(), self[26].cast_spec(),
            self[27].cast_spec(), self[28].cast_spec(), self[29].cast_spec()
        ]
    }

    fn cast(self) -> (r: [B; 30]) {
        [
            self[0].cast(), self[1].cast(), self[2].cast(), self[3].cast(),
            self[4].cast(), self[5].cast(), self[6].cast(), self[7].cast(),
            self[8].cast(), self[9].cast(), self[10].cast(), self[11].cast(),
            self[12].cast(), self[13].cast(), self[14].cast(), self[15].cast(),
            self[16].cast(), self[17].cast(), self[18].cast(), self[19].cast(),
            self[20].cast(), self[21].cast(), self[22].cast(), self[23].cast(),
            self[24].cast(), self[25].cast(), self[26].cast(), self[27].cast(),
            self[28].cast(), self[29].cast()
        ]
    }
}

impl<A: Copy + Cast<B>, B> Cast<[B; 31]> for [A; 31] {
    open spec fn cast_spec(self) -> [B; 31] {
        [
            self[0].cast_spec(), self[1].cast_spec(), self[2].cast_spec(),
            self[3].cast_spec(), self[4].cast_spec(), self[5].cast_spec(),
            self[6].cast_spec(), self[7].cast_spec(), self[8].cast_spec(),
            self[9].cast_spec(), self[10].cast_spec(), self[11].cast_spec(),
            self[12].cast_spec(), self[13].cast_spec(), self[14].cast_spec(),
            self[15].cast_spec(), self[16].cast_spec(), self[17].cast_spec(),
            self[18].cast_spec(), self[19].cast_spec(), self[20].cast_spec(),
            self[21].cast_spec(), self[22].cast_spec(), self[23].cast_spec(),
            self[24].cast_spec(), self[25].cast_spec(), self[26].cast_spec(),
            self[27].cast_spec(), self[28].cast_spec(), self[29].cast_spec(),
            self[30].cast_spec()
        ]
    }

    fn cast(self) -> (r: [B; 31]) {
        [
            self[0].cast(), self[1].cast(), self[2].cast(), self[3].cast(),
            self[4].cast(), self[5].cast(), self[6].cast(), self[7].cast(),
            self[8].cast(), self[9].cast(), self[10].cast(), self[11].cast(),
            self[12].cast(), self[13].cast(), self[14].cast(), self[15].cast(),
            self[16].cast(), self[17].cast(), self[18].cast(), self[19].cast(),
            self[20].cast(), self[21].cast(), self[22].cast(), self[23].cast(),
            self[24].cast(), self[25].cast(), self[26].cast(), self[27].cast(),
            self[28].cast(), self[29].cast(), self[30].cast()
        ]
    }
}

impl<A: Copy + Cast<B>, B> Cast<[B; 32]> for [A; 32] {
    open spec fn cast_spec(self) -> [B; 32] {
        [
            self[0].cast_spec(), self[1].cast_spec(), self[2].cast_spec(),
            self[3].cast_spec(), self[4].cast_spec(), self[5].cast_spec(),
            self[6].cast_spec(), self[7].cast_spec(), self[8].cast_spec(),
            self[9].cast_spec(), self[10].cast_spec(), self[11].cast_spec(),
            self[12].cast_spec(), self[13].cast_spec(), self[14].cast_spec(),
            self[15].cast_spec(), self[16].cast_spec(), self[17].cast_spec(),
            self[18].cast_spec(), self[19].cast_spec(), self[20].cast_spec(),
            self[21].cast_spec(), self[22].cast_spec(), self[23].cast_spec(),
            self[24].cast_spec(), self[25].cast_spec(), self[26].cast_spec(),
            self[27].cast_spec(), self[28].cast_spec(), self[29].cast_spec(),
            self[30].cast_spec(), self[31].cast_spec()
        ]
    }

    fn cast(self) -> (r: [B; 32]) {
        [
            self[0].cast(), self[1].cast(), self[2].cast(), self[3].cast(),
            self[4].cast(), self[5].cast(), self[6].cast(), self[7].cast(),
            self[8].cast(), self[9].cast(), self[10].cast(), self[11].cast(),
            self[12].cast(), self[13].cast(), self[14].cast(), self[15].cast(),
            self[16].cast(), self[17].cast(), self[18].cast(), self[19].cast(),
            self[20].cast(), self[21].cast(), self[22].cast(), self[23].cast(),
            self[24].cast(), self[25].cast(), self[26].cast(), self[27].cast(),
            self[28].cast(), self[29].cast(), self[30].cast(), self[31].cast()
        ]
    }
}

} // verus!
