use vstd::prelude::*;

verus! {

/// The five-bit S-box on one column of the state, in algebraic normal form.
///
/// `x0` is the bit taken from word 0 and `x4` the bit taken from word 4; the
/// result holds the five output bits in the same order. Output bit 2 is given
/// without its final complement, which the diffusion layer applies to the
/// whole of word 2.
pub open spec fn sbox_column(x0: bool, x1: bool, x2: bool, x3: bool, x4: bool) -> (
    bool,
    bool,
    bool,
    bool,
    bool,
) {
    (
        (x4 && x1) ^ x3 ^ (x2 && x1) ^ x2 ^ (x1 && x0) ^ x1 ^ x0,
        x4 ^ (x3 && x2) ^ (x3 && x1) ^ x3 ^ (x2 && x1) ^ x2 ^ x1 ^ x0,
        (x4 && x3) ^ x4 ^ x2 ^ x1,
        (x4 && x0) ^ x4 ^ (x3 && x0) ^ x3 ^ x2 ^ x1 ^ x0,
        (x4 && x1) ^ x4 ^ x3 ^ (x1 && x0) ^ x1,
    )
}

/// `w` if `b` holds, else zero: the value of a bit of weight `w`.
pub open spec fn weight(b: bool, w: int) -> int {
    if b {
        w
    } else {
        0
    }
}

/// The ten-bit substitution of `key`.
///
/// A key interleaves two columns: its even bits 0, 2, 4, 6, 8 are the bits of
/// words 0 to 4 of one column, its odd bits 1, 3, 5, 7, 9 those of another.
/// The result interleaves the images of both columns under [`sbox_column`] in
/// the same way, so the two columns never influence each other.
pub open spec fn sbox10(key: u16) -> int {
    let even = sbox_column(
        key % 2 == 1,
        (key / 4) % 2 == 1,
        (key / 16) % 2 == 1,
        (key / 64) % 2 == 1,
        (key / 256) % 2 == 1,
    );
    let odd = sbox_column(
        (key / 2) % 2 == 1,
        (key / 8) % 2 == 1,
        (key / 32) % 2 == 1,
        (key / 128) % 2 == 1,
        (key / 512) % 2 == 1,
    );
    weight(even.0, 1) + weight(odd.0, 2) + weight(even.1, 4) + weight(odd.1, 8) + weight(
        even.2,
        16,
    ) + weight(odd.2, 32) + weight(even.3, 64) + weight(odd.3, 128) + weight(even.4, 256)
        + weight(odd.4, 512)
}

/// The substitution table: entry `key` holds `sbox10(key)`.
const SBOX10: [u16; 1024] = [
    0, 69, 138, 207, 341, 17, 479, 155, 682, 751, 34, 103, 1023, 699, 375, 51,
    85, 16, 223, 154, 261, 65, 399, 203, 767, 698, 119, 50, 943, 747, 295, 99,
    170, 239, 32, 101, 511, 187, 373, 49, 522, 591, 130, 199, 863, 539, 471, 147,
    255, 186, 117, 48, 431, 235, 293, 97, 607, 538, 215, 146, 783, 587, 391, 195,
    325, 320, 463, 458, 20, 272, 158, 410, 1007, 1002, 359, 354, 702, 954, 54, 306,
    276, 273, 414, 411, 64, 324, 202, 462, 958, 955, 310, 307, 746, 1006, 98, 358,
    495, 490, 357, 352, 190, 442, 52, 304, 847, 842, 455, 450, 542, 794, 150, 402,
    446, 443, 308, 305, 234, 494, 96, 356, 798, 795, 406, 403, 586, 846, 194, 454,
    650, 719, 640, 709, 991, 667, 981, 657, 40, 109, 544, 613, 381, 57, 885, 561,
    735, 666, 725, 656, 911, 715, 901, 705, 125, 56, 629, 560, 301, 105, 805, 609,
    552, 621, 546, 615, 893, 569, 887, 563, 128, 197, 648, 717, 469, 145, 989, 665,
    637, 568, 631, 562, 813, 617, 807, 611, 213, 144, 733, 664, 389, 193, 909, 713,
    975, 970, 965, 960, 670, 922, 660, 912, 365, 360, 869, 864, 60, 312, 564, 816,
    926, 923, 916, 913, 714, 974, 704, 964, 316, 313, 820, 817, 104, 364, 608, 868,
    877, 872, 871, 866, 572, 824, 566, 818, 453, 448, 973, 968, 148, 400, 668, 920,
    828, 825, 822, 819, 616, 876, 610, 870, 404, 401, 924, 921, 192, 452, 712, 972,
    340, 337, 478, 475, 256, 4, 394, 142, 1022, 1019, 374, 371, 938, 686, 290, 38,
    257, 260, 395, 398, 336, 84, 474, 222, 939, 942, 291, 294, 1018, 766, 370, 118,
    510, 507, 372, 369, 426, 174, 288, 36, 862, 859, 470, 467, 778, 526, 386, 134,
    427, 430, 289, 292, 506, 254, 368, 116, 779, 782, 387, 390, 858, 606, 466, 214,
    1, 68, 139, 206, 81, 277, 219, 415, 683, 750, 35, 102, 763, 959, 115, 311,
    80, 21, 218, 159, 5, 321, 143, 459, 762, 703, 114, 55, 687, 1003, 39, 355,
    171, 238, 33, 100, 251, 447, 113, 309, 523, 590, 131, 198, 603, 799, 211, 407,
    250, 191, 112, 53, 175, 491, 37, 353, 602, 543, 210, 151, 527, 843, 135, 451,
    990, 987, 980, 977, 906, 654, 896, 644, 380, 377, 884, 881, 296, 44, 800, 548,
    907, 910, 897, 900, 986, 734, 976, 724, 297, 300, 801, 804, 376, 124, 880, 628,
    892, 889, 886, 883, 808, 556, 802, 550, 468, 465, 988, 985, 384, 132, 904, 652,
    809, 812, 803, 806, 888, 636, 882, 630, 385, 388, 905, 908, 464, 212, 984, 732,
    651, 718, 641, 708, 731, 927, 721, 917, 41, 108, 545, 612, 121, 317, 625, 821,
    730, 671, 720, 661, 655, 971, 645, 961, 120, 61, 624, 565, 45, 361, 549, 865,
    553, 620, 547, 614, 633, 829, 627, 823, 129, 196, 649, 716, 209, 405, 729, 925,
    632, 573, 626, 567, 557, 873, 551, 867, 208, 149, 728, 669, 133, 449, 653, 969,
    680, 749, 674, 743, 1021, 697, 1015, 691, 512, 581, 8, 77, 853, 529, 349, 25,
    765, 696, 759, 690, 941, 745, 935, 739, 597, 528, 93, 24, 773, 577, 269, 73,
    514, 583, 520, 589, 855, 531, 861, 537, 672, 741, 168, 237, 1013, 689, 509, 185,
    599, 530, 605, 536, 775, 579, 781, 585, 757, 688, 253, 184, 933, 737, 429, 233,
    1005, 1000, 999, 994, 700, 952, 694, 946, 837, 832, 333, 328, 532, 784, 28, 280,
    956, 953, 950, 947, 744, 1004, 738, 998, 788, 785, 284, 281, 576, 836, 72, 332,
    839, 834, 845, 840, 534, 786, 540, 792, 997, 992, 493, 488, 692, 944, 188, 440,
    790, 787, 796, 793, 578, 838, 584, 844, 948, 945, 444, 441, 736, 996, 232, 492,
    2, 71, 136, 205, 343, 19, 477, 153, 162, 231, 554, 623, 503, 179, 895, 571,
    87, 18, 221, 152, 263, 67, 397, 201, 247, 178, 639, 570, 423, 227, 815, 619,
    160, 229, 42, 111, 501, 177, 383, 59, 10, 79, 642, 711, 351, 27, 983, 659,
    245, 176, 127, 58, 421, 225, 303, 107, 95, 26, 727, 658, 271, 75, 903, 707,
    327, 322, 461, 456, 22, 274, 156, 408, 487, 482, 879, 874, 182, 434, 574, 826,
    278, 275, 412, 409, 66, 326, 200, 460, 438, 435, 830, 827, 226, 486, 618, 878,
    485, 480, 367, 362, 180, 432, 62, 314, 335, 330, 967, 962, 30, 282, 662, 914,
    436, 433, 318, 315, 224, 484, 106, 366, 286, 283, 918, 915, 74, 334, 706, 966,
    1020, 1017, 1014, 1011, 936, 684, 930, 678, 852, 849, 348, 345, 768, 516, 264, 12,
    937, 940, 931, 934, 1016, 764, 1010, 758, 769, 772, 265, 268, 848, 596, 344, 92,
    854, 851, 860, 857, 770, 518, 776, 524, 1012, 1009, 508, 505, 928, 676, 424, 172,
    771, 774, 777, 780, 850, 598, 856, 604, 929, 932, 425, 428, 1008, 756, 504, 252,
    681, 748, 675, 742, 761, 957, 755, 951, 513, 580, 9, 76, 593, 789, 89, 285,
    760, 701, 754, 695, 685, 1001, 679, 995, 592, 533, 88, 29, 517, 833, 13, 329,
    515, 582, 521, 588, 595, 791, 601, 797, 673, 740, 169, 236, 753, 949, 249, 445,
    594, 535, 600, 541, 519, 835, 525, 841, 752, 693, 248, 189, 677, 993, 173, 489,
    342, 339, 476, 473, 258, 6, 392, 140, 502, 499, 894, 891, 418, 166, 810, 558,
    259, 262, 393, 396, 338, 86, 472, 220, 419, 422, 811, 814, 498, 246, 890, 638,
    500, 497, 382, 379, 416, 164, 298, 46, 350, 347, 982, 979, 266, 14, 898, 646,
    417, 420, 299, 302, 496, 244, 378, 126, 267, 270, 899, 902, 346, 94, 978, 726,
    3, 70, 137, 204, 83, 279, 217, 413, 163, 230, 555, 622, 243, 439, 635, 831,
    82, 23, 216, 157, 7, 323, 141, 457, 242, 183, 634, 575, 167, 483, 559, 875,
    161, 228, 43, 110, 241, 437, 123, 319, 11, 78, 643, 710, 91, 287, 723, 919,
    240, 181, 122, 63, 165, 481, 47, 363, 90, 31, 722, 663, 15, 331, 647, 963,
];

proof fn lemma_entries_0_to_127(key: u16)
    requires
        0 <= key < 128,
    ensures
        SBOX10[key as int] == sbox10(key),
{
}

proof fn lemma_entries_128_to_255(key: u16)
    requires
        128 <= key < 256,
    ensures
        SBOX10[key as int] == sbox10(key),
{
}

proof fn lemma_entries_256_to_383(key: u16)
    requires
        256 <= key < 384,
    ensures
        SBOX10[key as int] == sbox10(key),
{
}

proof fn lemma_entries_384_to_511(key: u16)
    requires
        384 <= key < 512,
    ensures
        SBOX10[key as int] == sbox10(key),
{
}

proof fn lemma_entries_512_to_639(key: u16)
    requires
        512 <= key < 640,
    ensures
        SBOX10[key as int] == sbox10(key),
{
}

proof fn lemma_entries_640_to_767(key: u16)
    requires
        640 <= key < 768,
    ensures
        SBOX10[key as int] == sbox10(key),
{
}

proof fn lemma_entries_768_to_895(key: u16)
    requires
        768 <= key < 896,
    ensures
        SBOX10[key as int] == sbox10(key),
{
}

proof fn lemma_entries_896_to_1023(key: u16)
    requires
        896 <= key < 1024,
    ensures
        SBOX10[key as int] == sbox10(key),
{
}

/// Every entry of the table is the ten-bit substitution of its index.
proof fn lemma_table(key: u16)
    requires
        key < 1024,
    ensures
        SBOX10[key as int] == sbox10(key),
{
    if key < 128 {
        lemma_entries_0_to_127(key);
    } else if key < 256 {
        lemma_entries_128_to_255(key);
    } else if key < 384 {
        lemma_entries_256_to_383(key);
    } else if key < 512 {
        lemma_entries_384_to_511(key);
    } else if key < 640 {
        lemma_entries_512_to_639(key);
    } else if key < 768 {
        lemma_entries_640_to_767(key);
    } else if key < 896 {
        lemma_entries_768_to_895(key);
    } else {
        lemma_entries_896_to_1023(key);
    }
}

/// Looks `key` up in the substitution table.
pub(crate) fn sbox10_lookup(key: u16) -> (value: u16)
    requires
        key < 1024,
    ensures
        value == sbox10(key),
{
    proof {
        lemma_table(key);
    }
    SBOX10[key as usize]
}

} // verus!
