//! The tabulated equinox instants: for each covered year, the precise
//! instant, in calendar seconds, of the autumn equinox that opens it.  The
//! year-start table of the `years` module was derived from these instants,
//! each truncated down to the start of its calendar day.

use vstd::prelude::*;

verus! {

/// The tabulated equinox instant, in calendar seconds, of each covered
/// year: position `i` holds the year with zero-based index `-209 + i`.
#[verifier::opaque]
pub const EQUINOXES: [i64; 1417] = [
    -7633521098, -7596996560, -7560472136, -7523947785, -7487423590, -7450899300, -7414374439, -7377849953,
    -7341325789, -7304801436, -7268277195, -7231753296, -7195229448, -7158705378, -7122181079, -7085656897,
    -7049133042, -7012610404, -6976085835, -6939561621, -6903037416, -6866512984, -6829988583, -6793464152,
    -6756940063, -6720415753, -6683891188, -6647367264, -6610843407, -6574319116, -6537794837, -6501270540,
    -6464746487, -6428222540, -6391698137, -6355174279, -6318650477, -6282125970, -6245601686, -6209077411,
    -6172553090, -6136028940, -6099504062, -6062979757, -6026455889, -5989931253, -5953407165, -5916883060,
    -5880358810, -5843834952, -5807310452, -5770786505, -5734263040, -5697738433, -5661214231, -5624690053,
    -5588165604, -5551641689, -5515117116, -5478592845, -5442069152, -5405544344, -5369019965, -5332495979,
    -5295971394, -5259447384, -5222922761, -5186398351, -5149874943, -5113350485, -5076826384, -5040302826,
    -5003778354, -4967254520, -4930730189, -4894205748, -4857682281, -4821157408, -4784632707, -4748108713,
    -4711583896, -4675059800, -4638535468, -4602010889, -4565487466, -4528962930, -4492438592, -4455915195,
    -4419390819, -4382866816, -4346342672, -4309818093, -4273294651, -4236770264, -4200245614, -4163721997,
    -4127197259, -4090672830, -4054148610, -4017623833, -3981100129, -3944575609, -3908050697, -3871527198,
    -3835002829, -3798478744, -3761955053, -3725430612, -3688907159, -3652382998, -3615858327, -3579334844,
    -3542810371, -3506285685, -3469761465, -3433236607, -3396712717, -3360188453, -3323663622, -3287139979,
    -3250615708, -3214091197, -3177567429, -3141043115, -3104519336, -3067995319, -3031470505, -2994946906,
    -2958422847, -2921898290, -2885374394, -2848849921, -2812325782, -2775801658, -2739276777, -2702752962,
    -2666228720, -2629703816, -2593179673, -2556655292, -2520131320, -2483607445, -2447082962, -2410559263,
    -2374035392, -2337510840, -2300986908, -2264462783, -2227938604, -2191414373, -2154889680, -2118365615,
    -2081841639, -2045316945, -2008792668, -1972268474, -1935744129, -1899219990, -1862695568, -1826171607,
    -1789647676, -1753123038, -1716598759, -1680074856, -1643550814, -1607026835, -1570502615, -1533978654,
    -1497454696, -1460930172, -1424405766, -1387881614, -1351357208, -1314832553, -1278308083, -1241783918,
    -1205259903, -1168735582, -1132211217, -1095687314, -1059163366, -1022639092, -986115200, -949591320,
    -913067257, -876542918, -840018333, -803494316, -766970229, -730445605, -693921326, -657397151,
    -620872760, -584348436, -547823874, -511299774, -474775740, -438251100, -401727049, -365203411,
    -328679366, -292155458, -255631188, -219107093, -182583319, -146058615, -109534416, -73010468,
    -36485710, 38759, 36563402, 73087797, 109611527, 146136233, 182660343, 219183905,
    255708276, 292232189, 328756320, 365280545, 401804265, 438328984, 474853278, 511376788,
    547901364, 584425637, 620949998, 657474621, 693998480, 730523155, 767047614, 803571113,
    840095822, 876620184, 913144159, 949668552, 986192017, 1022716377, 1059240721, 1095763960,
    1132288464, 1168812797, 1205336755, 1241861538, 1278385528, 1314910243, 1351434935, 1387958292,
    1424482843, 1461007355, 1497531266, 1534055862, 1570579692, 1607103903, 1643628437, 1680151708,
    1716676153, 1753200745, 1789724417, 1826248826, 1862772740, 1899296907, 1935821657, 1972345075,
    2008869476, 2045394309, 2081918127, 2118442896, 2154967255, 2191491553, 2228016256, 2264539555,
    2301063634, 2337588296, 2374111815, 2410636105, 2447160137, 2483684069, 2520208644, 2556732239,
    2593256554, 2629781540, 2666305381, 2702829750, 2739354248, 2775878439, 2812403177, 2848926921,
    2885450989, 2921975799, 2958499542, 2995023682, 3031548141, 3068072015, 3104596277, 3141119782,
    3177643589, 3214168394, 3250692233, 3287216405, 3323741024, 3360265251, 3396789872, 3433314050,
    3469838344, 3506363324, 3542887250, 3579411182, 3615935572, 3652459587, 3688983640, 3725507350,
    3762031146, 3798555640, 3835079649, 3871603648, 3908128342, 3944652687, 3981176864, 4017700932,
    4054225136, 4090749884, 4127274182, 4163798151, 4200322702, 4236847000, 4273371028, 4309895056,
    4346419142, 4382943494, 4419467402, 4455991127, 4492515420, 4529039803, 4565563763, 4602087758,
    4638612057, 4675136567, 4711660953, 4748185262, 4784709829, 4821234493, 4857758416, 4894282273,
    4930806619, 4967330796, 5003854886, 5040378784, 5076902880, 5113427370, 5149951291, 5186475200,
    5222999744, 5259523896, 5296047978, 5332572092, 5369096357, 5405621087, 5442145195, 5478669067,
    5515193715, 5551718025, 5588242178, 5624766609, 5661290758, 5697815266, 5734339155, 5770862637,
    5807387155, 5843911245, 5880434995, 5916959293, 5953483261, 5990007876, 6026532229, 6063056043,
    6099581005, 6136105334, 6172629202, 6209153747, 6245677885, 6282202418, 6318726672, 6355250103,
    6391774725, 6428298914, 6464822553, 6501347024, 6537871013, 6574395181, 6610919383, 6647442836,
    6683967561, 6720492123, 6757015793, 6793540545, 6830064885, 6866589343, 6903114081, 6939637793,
    6976162462, 7012686896, 7049210109, 7085734523, 7122258554, 7158782450, 7195306777, 7231830106,
    7268354581, 7304879226, 7341402817, 7377927611, 7414452163, 7450976274, 7487500942, 7524024690,
    7560549275, 7597074016, 7633597396, 7670121775, 7706646181, 7743170000, 7779694494, 7816218170,
    7852742290, 7889266848, 7925790048, 7962314402, 7998839072, 8035362989, 8071887619, 8108411626,
    8144936001, 8181461041, 8217984684, 8254509167, 8291033878, 8327557556, 8364081868, 8400605700,
    8437129724, 8473654280, 8510177601, 8546701625, 8583226333, 8619750209, 8656274708, 8692798965,
    8729323145, 8765847824, 8802371505, 8838895668, 8875420604, 8911944542, 8948468792, 8984993082,
    9021517167, 9058041851, 9094565597, 9131089550, 9167614188, 9204137884, 9240661835, 9277186092,
    9313710123, 9350234614, 9386758369, 9423282385, 9459807266, 9496331490, 9532855806, 9569380348,
    9605904612, 9642428969, 9678952863, 9715476821, 9752001440, 9788525424, 9825049223, 9861573439,
    9898097634, 9934621840, 9971145832, 10007669769, 10044194256, 10080718396, 10117242324, 10153766850,
    10190291349, 10226815663, 10263339776, 10299863976, 10336388615, 10372913037, 10409437023, 10445961277,
    10482485487, 10519009311, 10555533012, 10592056997, 10628581195, 10665105336, 10701629233, 10738153457,
    10774678209, 10811202488, 10847726696, 10884251184, 10920775556, 10957299946, 10993824064, 11030348222,
    11066872855, 11103396688, 11139920364, 11176444569, 11212968645, 11249492894, 11286016929, 11322540885,
    11359065418, 11395589392, 11432113186, 11468637811, 11505162128, 11541686501, 11578210881, 11614735059,
    11651259925, 11687784212, 11724307865, 11760832328, 11797356256, 11833880114, 11870404312, 11906928049,
    11943452587, 11979976620, 12016500063, 12053024739, 12089549083, 12126073311, 12162598003, 12199121998,
    12235646709, 12272171028, 12308694567, 12345219263, 12381743478, 12418267292, 12454791721, 12491315613,
    12527840115, 12564364506, 12600887811, 12637412267, 12673936428, 12710460075, 12746984645, 12783508693,
    12820033120, 12856557706, 12893081152, 12929605908, 12966130607, 13002654428, 13039179175, 13075703181,
    13112227380, 13148751856, 13185275135, 13221799526, 13258323930, 13294847304, 13331371800, 13367895909,
    13404420171, 13440944853, 13477468331, 13513992728, 13550517391, 13587041028, 13623565690, 13660090144,
    13696614287, 13733138961, 13769662520, 13806186869, 13842711675, 13879235186, 13915759465, 13952283658,
    13988807342, 14025331765, 14061855250, 14098379346, 14134904128, 14171427681, 14207952206, 14244476981,
    14281001254, 14317526064, 14354049945, 14390574076, 14427098873, 14463622447, 14500146660, 14536671116,
    14573194875, 14609719057, 14646242734, 14682766686, 14719291427, 14755815158, 14792339241, 14828863921,
    14865387946, 14901912418, 14938436584, 14974960752, 15011485579, 15048009504, 15084533633, 15121058491,
    15157582574, 15194106741, 15230630584, 15267154285, 15303678659, 15340202344, 15376726232, 15413250826,
    15449774928, 15486299086, 15522823359, 15559347686, 15595872490, 15632396668, 15668920753, 15705445379,
    15741969652, 15778493659, 15815017751, 15851541789, 15888065969, 15924589875, 15961113712, 15997638252,
    16034162590, 16070686498, 16107210539, 16143734715, 16180258989, 16216783179, 16253307270, 16289831855,
    16326356341, 16362880394, 16399404642, 16435929172, 16472453515, 16508977546, 16545501509, 16582025652,
    16618549964, 16655073782, 16691597655, 16728122003, 16764646042, 16801170010, 16837694304, 16874218675,
    16910743359, 16947267432, 16983791366, 17020316017, 17056840189, 17093364278, 17129888623, 17166412795,
    17202937238, 17239461245, 17275985052, 17312509719, 17349033769, 17385557493, 17422081648, 17458605613,
    17495129937, 17531654081, 17568177844, 17604702577, 17641226893, 17677750802, 17714275604, 17750800008,
    17787324562, 17823848885, 17860372465, 17896897038, 17933421184, 17969944615, 18006469025, 18042992905,
    18079516960, 18116041221, 18152564832, 18189089614, 18225614026, 18262137604, 18298662262, 18335186590,
    18371710907, 18408235557, 18444759315, 18481283986, 18517808430, 18554331876, 18590856459, 18627380744,
    18663904582, 18700428855, 18736952262, 18773476530, 18810001004, 18846524289, 18883048872, 18919573336,
    18956097349, 18992622167, 19029146240, 19065670925, 19102195768, 19138719076, 19175243523, 19211767921,
    19248291593, 19284816012, 19321339653, 19357863765, 19394388276, 19430911567, 19467435981, 19503960674,
    19540484417, 19577008927, 19613532946, 19650057273, 19686582140, 19723105714, 19759630060, 19796154854,
    19832678565, 19869203062, 19905727293, 19942251399, 19978776033, 20015299282, 20051823233, 20088347861,
    20124871416, 20161395665, 20197919866, 20234443909, 20270968688, 20307492422, 20344016768, 20380541778,
    20417065590, 20453589832, 20490114172, 20526638288, 20563162870, 20599686553, 20636210465, 20672735162,
    20709258863, 20745782930, 20782307372, 20818831443, 20855355775, 20891879478, 20928403339, 20964928145,
    21001452101, 21037976177, 21074500806, 21111025047, 21147549600, 21184073710, 21220597877, 21257122675,
    21293646569, 21330170319, 21366694655, 21403218684, 21439742768, 21476266500, 21512790335, 21549314810,
    21585838863, 21622362900, 21658887565, 21695412105, 21731936318, 21768460402, 21804984593, 21841509224,
    21878033474, 21914557396, 21951081783, 21987606178, 22024130106, 22060654052, 22097178098, 22133702302,
    22170226236, 22206749909, 22243274194, 22279798721, 22316322797, 22352846829, 22389371236, 22425895708,
    22462420135, 22498944407, 22535468934, 22571993613, 22608517538, 22645041197, 22681565418, 22718089418,
    22754613324, 22791137203, 22827661171, 22864185778, 22900709798, 22937233716, 22973758393, 23010282655,
    23046806790, 23083331077, 23119855310, 23156380186, 23192904319, 23229428047, 23265952598, 23302476693,
    23339000642, 23375524896, 23412048905, 23448573365, 23485097296, 23521620682, 23558145244, 23594669403,
    23631193253, 23667717689, 23704241835, 23740766557, 23777291078, 23813814811, 23850339695, 23886863988,
    23923387620, 23959912065, 23996436023, 24032960453, 24069484668, 24106007956, 24142532500, 24179056754,
    24215580354, 24252104987, 24288629100, 24325153465, 24361677822, 24398201275, 24434725980, 24471250526,
    24507774133, 24544298767, 24580823076, 24617347403, 24653872055, 24690395586, 24726920096, 24763444480,
    24799967659, 24836492010, 24873016200, 24909540150, 24946064618, 24982588004, 25019112442, 25055637203,
    25092160761, 25128685572, 25165210188, 25201734315, 25238258935, 25274782579, 25311306969, 25347831668,
    25384354927, 25420879248, 25457403638, 25493927484, 25530451927, 25566975574, 25603499662, 25640024217,
    25676547502, 25713071813, 25749596625, 25786120640, 25822645283, 25859169299, 25895693618, 25932218583,
    25968742244, 26005266565, 26041791313, 26078314943, 26114839105, 26151362836, 26187886699, 26224411224,
    26260934546, 26297458585, 26333983385, 26370507422, 26407031943, 26443556289, 26480080519, 26516605265,
    26553128980, 26589653145, 26626178018, 26662701981, 26699226027, 26735750109, 26772274054, 26808798495,
    26845322208, 26881846063, 26918370721, 26954894541, 26991418484, 27027942775, 27064466971, 27100991516,
    27137515503, 27174039590, 27210564561, 27247088854, 27283613030, 27320137413, 27356661528, 27393185706,
    27429709428, 27466233292, 27502757784, 27539281811, 27575805540, 27612329716, 27648854002, 27685378309,
    27721902409, 27758426592, 27794951151, 27831475458, 27867999355, 27904523697, 27941048195, 27977572317,
    28014096328, 28050620431, 28087144915, 28123669274, 28160193152, 28196717237, 28233241537, 28269765346,
    28306289156, 28342813283, 28379337615, 28415861907, 28452385868, 28488910047, 28525434809, 28561959097,
    28598483187, 28635007707, 28671531971, 28708056267, 28744580253, 28781104196, 28817628755, 28854152612,
    28890676181, 28927200519, 28963724594, 29000248879, 29036772990, 29073296862, 29109821518, 29146345539,
    29182869339, 29219394041, 29255918388, 29292442718, 29328967079, 29365491075, 29402015913, 29438540142,
    29475063730, 29511588165, 29548112094, 29584635846, 29621159976, 29657683644, 29694208150, 29730732337,
    29767255781, 29803780586, 29840305040, 29876829270, 29913353991, 29949877978, 29986402627, 30022927033,
    30059450425, 30095975098, 30132499248, 30169022872, 30205547175, 30242070870, 30278595296, 30315119696,
    30351643035, 30388167565, 30424691895, 30461215582, 30497740237, 30534264348, 30570788887, 30607313572,
    30643837104, 30680361796, 30716886491, 30753410142, 30789934648, 30826458519, 30862982482, 30899506899,
    30936030086, 30972554430, 31009078914, 31045602322, 31082126825, 31118651092, 31155175420, 31191700321,
    31228223916, 31264748390, 31301273103, 31337796640, 31374321130, 31410845418, 31447369438, 31483893954,
    31520417446, 31556941646, 31593466414, 31629989893, 31666514131, 31703038388, 31739562241, 31776086743,
    31812610458, 31849134622, 31885659498, 31922183112, 31958707476, 31995232230, 32031756395, 32068281103,
    32104804909, 32141328900, 32177853547, 32214377034, 32250901050, 32287425521, 32323949322, 32360473599,
    32396997381, 32433521438, 32470046225, 32506570032, 32543094121, 32579618781, 32616142922, 32652667326,
    32689191512, 32725715636, 32762240339, 32798764184, 32835288165, 32871812863, 32908337023, 32944861093,
    32981384996, 33017908715, 33054433009, 33090956739, 33127480549, 33164005178, 33200529407, 33237053631,
    33273577953, 33310102355, 33346627083, 33383151269, 33419675254, 33456199804, 33492724056, 33529248020,
    33565771990, 33602296017, 33638820062, 33675343862, 33711867677, 33748392096, 33784916596, 33821440578,
    33857964697, 33894489035, 33931013333, 33967537547, 34004061729, 34040586231, 34077110853, 34113634849,
    34150158976, 34186683428, 34223207542, 34259731410, 34296255217, 34332779224, 34369303512, 34405827378,
    34442351223, 34478875715, 34515399822, 34551923879, 34588448297, 34624972782, 34661497577, 34698021817,
    34734545659, 34771070276, 34807594314, 34844118126, 34880642380, 34917166331, 34953690715, 34990214695,
    35026738378, 35063263053, 35099787155, 35136310863, 35172835218, 35209359261, 35245883788, 35282408091,
    35318931875, 35355456627, 35391980880, 35428504634, 35465029277, 35501553572, 35538077974, 35574602267,
    35611125678, 35647650142, 35684174241, 35720697613, 35757222052, 35793746119, 35830270266, 35866794768,
    35903318436, 35939843244, 35976367759, 36012891229, 36049415887, 36085940164, 36122464403, 36158989005,
    36195512635, 36232037131, 36268561521, 36305084789, 36341609336, 36378133623, 36414657538, 36451181884,
    36487705347, 36524229607, 36560754115, 36597277440, 36633801990, 36670326593, 36706850620, 36743375458,
    36779899497, 36816424065, 36852948846, 36889472103, 36925996384, 36962520831, 36999044425, 37035568820,
    37072092440, 37108616443, 37145140987, 37181664248, 37218188680, 37254713480, 37291237361, 37327761920,
    37364286008, 37400810283, 37437335155, 37473858695, 37510383000, 37546907752, 37583431476, 37619955796,
    37656479900, 37693003856, 37729528320, 37766051578, 37802575422, 37839100134, 37875623819, 37912148118,
    37948672431, 37985196577, 38021721387, 38058245287, 38094769612, 38131294728, 38167818587, 38204342710,
    38240866906, 38277390807, 38313915182, 38350438704, 38386962515, 38423487135, 38460010925, 38496534951,
    38533059421, 38569583587, 38606108011, 38642631842, 38679155879, 38715680737, 38752204887, 38788728912,
    38825253416, 38861777604, 38898301892, 38934825887, 38971349887, 39007874561, 39044398466, 39080922128,
    39117446361, 39153970474, 39190494542, 39227018444, 39263542427, 39300067067, 39336591305, 39373115393,
    39409640001, 39446164531, 39482688668, 39519212592, 39555736732, 39592261174, 39628785365, 39665309157,
    39701833349, 39738357712, 39774881627, 39811405518, 39847929754, 39884454004, 39920978123, 39957501895,
    39994026100, 40030550745, 40067074797, 40103598826, 40140123277, 40176647714, 40213172092, 40249696289,
    40286220585, 40322745237, 40359269071, 40395792667, 40432316891, 40468840924, 40505364828, 40541888744,
    40578412648, 40614937263, 40651461394, 40687985256, 40724510085, 40761034418, 40797558570, 40834082863,
    40870606958, 40907131743, 40943655905, 40980179458, 41016704053, 41053228096, 41089751944, 41126276146,
    41162799979, 41199324435, 41235848396, 41272371791, 41308896446, 41345420774, 41381944682, 41418469225,
    41454993361, 41491518123, 41528042678, 41564566390, 41601091214, 41637615539, 41674138998, 41710663260,
    41747187035, 41783711237, 41820235456, 41856758634, 41893283209, 41929807596, 41966331234, 42002855937,
    42039380177, 42075904600, 42112429179, 42148952651, 42185477423, 42222002024, 42258525526, 42295050012,
    42331574123, 42368098281, 42404622777, 42441146214, 42477670613, 42514195060, 42550718218, 42587242550,
    42623766807, 42660290891, 42696815490, 42733339098, 42769863591, 42806388504, 42842912047, 42879436681,
    42915961243, 42952485182, 42989009692, 43025533193, 43062057425, 43098582063, 43135105252, 43171629423,
    43208153865, 43244677741, 43281202328, 43317726120, 43354250377, 43390775081, 43427298450, 43463822699,
    43500347458, 43536871498, 43573396021, 43609920031, 43646444237, 43682969098, 43719492653, 43756016773,
    43792541412, 43829065100, 43865589179, 43902113032, 43938636934, 43975161528, 44011684959, 44048208917,
    44084733773,
];

/// Returns the tabulated equinox instant opening the year with the given
/// displayed number, in calendar seconds.  Only the covered years, indices
/// -209 through 1207, are tabulated.
pub fn get_equinox(republican_year: i64) -> (r: i64)
    requires
        -209 <= crate::years::spec_republican_year0(republican_year as int) <= 1207,
    ensures
        r == EQUINOXES[crate::years::spec_republican_year0(republican_year as int) + 209],
{
    let republican_year0: i64 = if republican_year > 0 {
        republican_year - 1
    } else {
        republican_year
    };
    let index: usize = (republican_year0 + 209) as usize;
    EQUINOXES[index]
}

} // verus!
